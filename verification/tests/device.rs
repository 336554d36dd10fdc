use led_link::device::{scan_order, sort_devices, Advertised, DeviceInfo};

fn device(addr: &str, name: Option<&str>, rssi: Option<i16>) -> DeviceInfo {
    DeviceInfo { addr: addr.to_string(), name: name.map(|n| n.to_string()), rssi }
}

fn addrs(devices: &[DeviceInfo]) -> Vec<String> {
    devices.iter().map(|d| d.addr.clone()).collect()
}

#[test]
fn a_named_device_beats_a_stronger_unnamed_one() {
    let found = vec![device("AA", Some("Tag"), Some(-40)), device("BB", None, Some(-30))];
    assert_eq!(addrs(&sort_devices(&found)), vec!["AA", "BB"]);
    let found = vec![device("BB", None, Some(-30)), device("AA", Some("Tag"), Some(-40))];
    assert_eq!(addrs(&sort_devices(&found)), vec!["AA", "BB"]);
}

#[test]
fn the_stronger_signal_comes_first_among_equals() {
    let found = vec![
        device("A", Some("a"), Some(-70)),
        device("B", Some("b"), Some(-40)),
        device("C", None, Some(-90)),
        device("D", None, Some(-20)),
        device("E", Some("e"), Some(-55)),
    ];
    assert_eq!(addrs(&sort_devices(&found)), vec!["B", "E", "A", "D", "C"]);
    assert_eq!(scan_order(&found), vec![1, 4, 0, 3, 2]);
}

#[test]
fn equal_rank_keeps_the_order_of_finding() {
    let found = vec![
        device("first", Some("x"), Some(-50)),
        device("second", Some("y"), Some(-50)),
        device("third", None, None),
        device("fourth", None, None),
        device("fifth", Some("z"), Some(-50)),
    ];
    assert_eq!(addrs(&sort_devices(&found)), vec!["first", "second", "fifth", "third", "fourth"]);
}

#[test]
fn no_measurement_is_the_weakest_signal() {
    let found = vec![
        device("none", Some("n"), None),
        device("faint", Some("f"), Some(-1000)),
        device("faintest", Some("g"), Some(i16::MIN)),
        device("near", Some("h"), Some(-3)),
    ];
    // The device without a measurement ties with the faintest there can be,
    // and was found before it.
    assert_eq!(addrs(&sort_devices(&found)), vec!["near", "faint", "none", "faintest"]);
}

#[test]
fn nothing_found_nothing_listed() {
    let found: Vec<DeviceInfo> = Vec::new();
    assert!(sort_devices(&found).is_empty());
    assert!(scan_order(&found).is_empty());
}

#[test]
fn one_device_is_listed_as_it_is() {
    let found = vec![device("only", None, None)];
    assert_eq!(sort_devices(&found), found);
    assert_eq!(scan_order(&found), vec![0]);
}

#[test]
fn sorting_leaves_the_argument_and_copies_every_field() {
    let found = vec![device("b", None, Some(-1)), device("a", Some("name"), None)];
    let sorted = sort_devices(&found);
    assert_eq!(found[0], device("b", None, Some(-1)));
    assert_eq!(sorted, vec![device("a", Some("name"), None), device("b", None, Some(-1))]);
    assert_eq!(found[1].duplicate(), found[1]);
}

#[test]
fn outranking_is_by_name_then_by_signal() {
    let named = device("n", Some("n"), Some(-90));
    let unnamed = device("u", None, Some(-10));
    assert!(named.outranks(&unnamed));
    assert!(!unnamed.outranks(&named));
    let strong = device("s", None, Some(-20));
    assert!(strong.outranks(&device("w", None, Some(-21))));
    assert!(!strong.outranks(&device("e", None, Some(-20))));
    assert!(!device("x", None, None).outranks(&device("y", None, Some(i16::MIN))));
    assert_eq!(device("x", None, None).signal_strength(), i16::MIN);
    assert_eq!(strong.signal_strength(), -20);
}

#[test]
fn the_order_is_that_of_a_stable_sort() {
    // A fixed stream of numbers stands in for what a radio might see.
    let mut seed: u32 = 0x2545_f491;
    for round in 0..200usize {
        let mut found = Vec::new();
        for i in 0..(round % 17) {
            seed = seed.wrapping_mul(1_664_525).wrapping_add(1_013_904_223);
            let name = if (seed >> 8) & 1 == 1 { Some("dev") } else { None };
            let rssi = match (seed >> 12) % 5 {
                0 => None,
                1 => Some(i16::MIN),
                k => Some(-30 - (k as i16) * 10),
            };
            found.push(device(&format!("{round}-{i}"), name, rssi));
        }
        let mut expected = found.clone();
        expected.sort_by(|a, b| {
            let key = |d: &DeviceInfo| (d.name.is_some(), d.rssi.unwrap_or(i16::MIN));
            key(b).cmp(&key(a))
        });
        assert_eq!(sort_devices(&found), expected);
        let order = scan_order(&found);
        let mut seen = order.clone();
        seen.sort();
        assert_eq!(seen, (0..found.len()).collect::<Vec<usize>>());
        let picked: Vec<DeviceInfo> = order.iter().map(|&at| found[at].clone()).collect();
        assert_eq!(picked, expected);
    }
}

#[test]
fn a_device_is_recorded_with_what_it_advertised() {
    let advertised = Advertised { local_name: Some("Tag".to_string()), rssi: Some(-40) };
    assert_eq!(
        DeviceInfo::seen("AA".to_string(), Some(advertised)),
        device("AA", Some("Tag"), Some(-40))
    );
    let nameless = Advertised { local_name: None, rssi: Some(-71) };
    assert_eq!(DeviceInfo::seen("BB".to_string(), Some(nameless)), device("BB", None, Some(-71)));
    let silent = Advertised { local_name: Some("x".to_string()), rssi: None };
    assert_eq!(DeviceInfo::seen("CC".to_string(), Some(silent)), device("CC", Some("x"), None));
    assert_eq!(DeviceInfo::seen("DD".to_string(), None), device("DD", None, None));
}
