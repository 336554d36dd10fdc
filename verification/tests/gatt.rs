use led_link::gatt::{
    battery_service, discoverable, find_characteristic, led_service, CharacteristicDescriptor,
    CharacteristicInfo, PROP_NOTIFY, PROP_READ, PROP_WRITE, PROP_WRITE_WITHOUT_RESPONSE,
};
use led_link::identifier::{
    led_characteristic_uuid, GattUuid, BATTERY_LEVEL, BATTERY_SERVICE, LED_CHARACTERISTIC,
    LED_SERVICE,
};

#[test]
fn the_first_characteristic_with_the_identifier_is_found() {
    let found = vec![
        CharacteristicInfo { uuid: 1, properties: 0 },
        CharacteristicInfo { uuid: 7, properties: PROP_READ },
        CharacteristicInfo { uuid: 3, properties: 0 },
        CharacteristicInfo { uuid: 7, properties: PROP_WRITE },
    ];
    assert_eq!(find_characteristic(&found, 7), Some(1));
    assert_eq!(find_characteristic(&found, 1), Some(0));
    assert_eq!(find_characteristic(&found, 3), Some(2));
    assert_eq!(find_characteristic(&found, 9), None);
    assert_eq!(find_characteristic(&Vec::new(), 7), None);
}

#[test]
fn a_write_of_either_kind_makes_writable() {
    let with = |properties: u8| CharacteristicInfo { uuid: 0, properties };
    assert!(with(PROP_WRITE).is_writable());
    assert!(with(PROP_WRITE_WITHOUT_RESPONSE).is_writable());
    assert!(with(PROP_WRITE | PROP_READ | PROP_NOTIFY).is_writable());
    assert!(with(0xff).is_writable());
    assert!(!with(0).is_writable());
    assert!(!with(PROP_READ | PROP_NOTIFY).is_writable());
    assert!(!with(0xf3).is_writable());
}

#[test]
fn the_property_bits_are_those_of_the_standard() {
    assert_eq!(PROP_READ, 0x02);
    assert_eq!(PROP_WRITE_WITHOUT_RESPONSE, 0x04);
    assert_eq!(PROP_WRITE, 0x08);
    assert_eq!(PROP_NOTIFY, 0x10);
}

#[test]
fn the_table_of_the_peripheral() {
    let battery = battery_service();
    assert_eq!(battery.uuid, GattUuid::Short(BATTERY_SERVICE));
    assert_eq!(
        battery.characteristic,
        CharacteristicDescriptor {
            uuid: GattUuid::Short(BATTERY_LEVEL),
            read: true,
            write: false,
            notify: true,
        }
    );
    let led = led_service();
    assert_eq!(led.uuid, GattUuid::Long(LED_SERVICE));
    assert_eq!(LED_SERVICE, 0x9e7312e0_2354_11eb_9f10_fbc30a62cf38);
    assert_eq!(
        led.characteristic,
        CharacteristicDescriptor {
            uuid: GattUuid::Long(LED_CHARACTERISTIC),
            read: true,
            write: true,
            notify: true,
        }
    );
    assert_eq!(battery.characteristic.properties(), 0x12);
    assert_eq!(led.characteristic.properties(), 0x1a);
}

#[test]
fn a_central_finds_the_mask_on_the_peripheral() {
    let found = discoverable();
    assert_eq!(
        found,
        vec![
            CharacteristicInfo { uuid: 0x00002a19_0000_1000_8000_00805f9b34fb, properties: 0x12 },
            CharacteristicInfo { uuid: LED_CHARACTERISTIC, properties: 0x1a },
        ]
    );
    let led = led_characteristic_uuid().unwrap();
    assert_eq!(find_characteristic(&found, led), Some(1));
    assert!(found[1].is_writable());
    assert!(!found[0].is_writable());
}
