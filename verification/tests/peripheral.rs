use led_link::mask::Leds;
use led_link::peripheral::{
    decode_mask, Action, Advertisement, Cause, Link, Note, Peripheral, Report, DEVICE_NAME,
};

fn dark() -> Leds {
    Leds { led1: false, led2: false, led3: false, led4: false }
}

/// A peripheral with a central connected.
fn serving() -> Peripheral {
    let mut p = Peripheral::new();
    assert_eq!(p.step(Report::Start), vec![Action::Advertise(Peripheral::advertisement())]);
    assert_eq!(p.step(Report::Accepted), vec![Action::Log(Note::Connected)]);
    assert_eq!(p.link, Link::Connected);
    p
}

#[test]
fn at_power_up_the_peripheral_is_idle_and_dark() {
    let p = Peripheral::new();
    assert_eq!(
        p,
        Peripheral {
            link: Link::Idle,
            leds: dark(),
            mask: 0,
            mask_notifications: false,
            battery_notifications: false,
        }
    );
}

#[test]
fn the_peripheral_advertises_then_serves_then_is_idle_again() {
    let mut p = Peripheral::new();
    assert_eq!(p.step(Report::Start), vec![Action::Advertise(Peripheral::advertisement())]);
    assert_eq!(p.link, Link::Advertising);
    assert_eq!(p.step(Report::Accepted), vec![Action::Log(Note::Connected)]);
    assert_eq!(p.link, Link::Connected);
    assert_eq!(
        p.step(Report::Disconnected(Cause::Remote)),
        vec![Action::Log(Note::Disconnected(Cause::Remote)), Action::SetOutputs(dark())]
    );
    assert_eq!(p.link, Link::Idle);
    assert_eq!(p.step(Report::Start), vec![Action::Advertise(Peripheral::advertisement())]);
    assert_eq!(p.link, Link::Advertising);
}

#[test]
fn a_write_of_five_lights_the_first_and_third_and_is_notified_back() {
    let mut p = serving();
    let lit = Leds { led1: true, led2: false, led3: true, led4: false };
    assert_eq!(
        p.step(Report::MaskWrite(vec![0x05])),
        vec![Action::Log(Note::MaskWritten(0x05)), Action::SetOutputs(lit), Action::Notify(0x05)]
    );
    assert_eq!(p.leds, lit);
    assert_eq!(p.mask, 0x05);
    assert_eq!(p.link, Link::Connected);
}

#[test]
fn every_write_sets_the_outputs_before_it_notifies() {
    for m in 0..=255u8 {
        let mut p = serving();
        let actions = p.step(Report::MaskWrite(vec![m]));
        let mut expected = Leds::new();
        expected.apply_mask(m);
        assert_eq!(
            actions,
            vec![Action::Log(Note::MaskWritten(m)), Action::SetOutputs(expected), Action::Notify(m)]
        );
        assert_eq!(p.mask, m);
        assert_eq!(p.leds, expected);
    }
}

#[test]
fn of_a_write_of_several_bytes_the_first_counts() {
    let mut p = serving();
    let lit = Leds { led1: false, led2: true, led3: false, led4: false };
    assert_eq!(
        p.step(Report::MaskWrite(vec![0x02, 0x0f, 0x0f])),
        vec![
            Action::Log(Note::MalformedWrite { length: 3 }),
            Action::Log(Note::MaskWritten(0x02)),
            Action::SetOutputs(lit),
            Action::Notify(0x02),
        ]
    );
    assert_eq!(p.mask, 0x02);
    assert_eq!(p.leds, lit);
}

#[test]
fn a_write_without_a_byte_changes_nothing() {
    let mut p = serving();
    p.step(Report::MaskWrite(vec![0x09]));
    let before = p;
    assert_eq!(
        p.step(Report::MaskWrite(Vec::new())),
        vec![Action::Log(Note::MalformedWrite { length: 0 })]
    );
    assert_eq!(p, before);
    assert_eq!(p.mask, 0x09);
}

#[test]
fn the_first_byte_of_a_write_is_the_mask() {
    assert_eq!(decode_mask(&vec![0x05]), Some(0x05));
    assert_eq!(decode_mask(&vec![0xff, 0x00]), Some(0xff));
    assert_eq!(decode_mask(&Vec::new()), None);
}

#[test]
fn a_notification_that_fails_is_logged_and_nothing_else() {
    let mut p = serving();
    p.step(Report::MaskWrite(vec![0x0a]));
    let before = p;
    assert_eq!(p.step(Report::NotifyFailed), vec![Action::Log(Note::NotifyFailed)]);
    assert_eq!(p, before);
    assert_eq!(p.mask, 0x0a);
    assert_eq!(p.leds, Leds { led1: false, led2: true, led3: false, led4: true });
}

#[test]
fn subscriptions_are_recorded_and_logged() {
    let mut p = serving();
    assert_eq!(
        p.step(Report::MaskSubscription(true)),
        vec![Action::Log(Note::MaskNotifications(true))]
    );
    assert!(p.mask_notifications);
    assert!(!p.battery_notifications);
    assert_eq!(
        p.step(Report::BatterySubscription(true)),
        vec![Action::Log(Note::BatteryNotifications(true))]
    );
    assert!(p.battery_notifications);
    assert_eq!(
        p.step(Report::MaskSubscription(false)),
        vec![Action::Log(Note::MaskNotifications(false))]
    );
    assert!(!p.mask_notifications);
    assert_eq!(p.leds, dark());
    assert_eq!(p.mask, 0);
    assert_eq!(p.link, Link::Connected);
}

#[test]
fn a_write_is_served_without_a_subscription() {
    let mut p = serving();
    assert!(!p.mask_notifications);
    let actions = p.step(Report::MaskWrite(vec![0x01]));
    assert_eq!(actions.last(), Some(&Action::Notify(0x01)));
    assert_eq!(p.mask, 0x01);
}

#[test]
fn a_disconnect_of_any_cause_darkens_the_outputs() {
    for cause in [Cause::Local, Cause::Remote, Cause::LinkLost] {
        for m in 0..=255u8 {
            let mut p = serving();
            p.step(Report::MaskWrite(vec![m]));
            assert_eq!(
                p.step(Report::Disconnected(cause)),
                vec![Action::Log(Note::Disconnected(cause)), Action::SetOutputs(dark())]
            );
            assert_eq!(p.leds, dark());
            assert_eq!(p.link, Link::Idle);
            // The characteristic keeps the last mask that was written.
            assert_eq!(p.mask, m);
        }
    }
}

#[test]
fn a_new_connection_starts_without_subscriptions() {
    let mut p = serving();
    p.step(Report::MaskSubscription(true));
    p.step(Report::BatterySubscription(true));
    p.step(Report::Disconnected(Cause::LinkLost));
    p.step(Report::Start);
    p.step(Report::Accepted);
    assert!(!p.mask_notifications);
    assert!(!p.battery_notifications);
    assert_eq!(p.leds, dark());
}

#[test]
fn a_report_that_does_not_fit_changes_nothing() {
    let mut p = Peripheral::new();
    let idle = p;
    assert_eq!(p.step(Report::MaskWrite(vec![0x0f])), vec![]);
    assert_eq!(p.step(Report::Accepted), vec![]);
    assert_eq!(p.step(Report::Disconnected(Cause::Remote)), vec![]);
    assert_eq!(p.step(Report::NotifyFailed), vec![]);
    assert_eq!(p.step(Report::MaskSubscription(true)), vec![]);
    assert_eq!(p, idle);
    p.step(Report::Start);
    let advertising = p;
    assert_eq!(p.step(Report::Start), vec![]);
    assert_eq!(p.step(Report::MaskWrite(vec![0x0f])), vec![]);
    assert_eq!(p.step(Report::BatterySubscription(true)), vec![]);
    assert_eq!(p, advertising);
    p.step(Report::Accepted);
    let connected = p;
    assert_eq!(p.step(Report::Start), vec![]);
    assert_eq!(p.step(Report::Accepted), vec![]);
    assert_eq!(p, connected);
}

#[test]
fn the_advertisement_names_both_services() {
    assert_eq!(
        Peripheral::advertisement(),
        Advertisement {
            general_discovery: true,
            le_only: true,
            service: 0x180f,
            name: "HelloRust",
            scan_response_service: 0x9e7312e0_2354_11eb_9f10_fbc30a62cf38,
        }
    );
    assert_eq!(DEVICE_NAME, "HelloRust");
}
