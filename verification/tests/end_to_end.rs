use led_link::device::DeviceInfo;
use led_link::gatt::discoverable;
use led_link::identifier::led_characteristic_uuid;
use led_link::mask::Leds;
use led_link::message::{Cmd, UiMsg};
use led_link::peripheral::{Action, Cause, Link, Peripheral, Report};
use led_link::ui::{UiEvent, UiState, UiUpdate};
use led_link::worker::{Effect, Input, Worker};

/// Performs the effects of the worker against a peripheral in place of the
/// radio, and returns the outcome of the request among them, if there is one.
fn perform(
    effects: Vec<Effect>,
    peripheral: &mut Peripheral,
    ui: &mut UiState,
    shown: &mut Vec<UiUpdate>,
    notified: &mut Vec<u8>,
) -> Option<Input> {
    let mut outcome = None;
    for effect in effects {
        match effect {
            Effect::Emit(msg) => shown.extend(ui.apply(msg)),
            Effect::AcquireAdapter => outcome = Some(Input::AdapterReady),
            Effect::StartScan => outcome = Some(Input::ScanStarted),
            Effect::Dwell { seconds } => {
                assert_eq!(seconds, 5);
                outcome = Some(Input::DwellElapsed);
            }
            Effect::ListPeripherals => {
                let seen = if peripheral.link == Link::Advertising {
                    vec![DeviceInfo {
                        addr: "AA".to_string(),
                        name: Some("HelloRust".to_string()),
                        rssi: Some(-40),
                    }]
                } else {
                    Vec::new()
                };
                outcome = Some(Input::Peripherals(seen));
            }
            Effect::OpenLink { peripheral: at } => {
                assert_eq!(at, 0);
                peripheral.step(Report::Accepted);
                outcome = Some(Input::LinkOpened);
            }
            Effect::DiscoverServices => outcome = Some(Input::Discovered(discoverable())),
            Effect::KeepLink { characteristic } => assert_eq!(characteristic, 1),
            Effect::AbandonLink | Effect::CloseLink => {
                peripheral.step(Report::Disconnected(Cause::Remote));
                peripheral.step(Report::Start);
            }
            Effect::Write { value } => {
                for action in peripheral.step(Report::MaskWrite(vec![value])) {
                    if let Action::Notify(m) = action {
                        notified.push(m);
                    }
                }
                outcome = Some(Input::Written);
            }
        }
    }
    outcome
}

#[test]
fn from_a_click_to_the_outputs_and_back() {
    let mut peripheral = Peripheral::new();
    peripheral.step(Report::Start);
    let mut ui = UiState::new();
    let mut shown = ui.greet();
    let mut notified = Vec::new();
    let mut worker = Worker::new(led_characteristic_uuid().unwrap());

    let mut next = Some(Input::Start);
    let mut clicks = vec![
        UiEvent::ScanClicked,
        UiEvent::ConnectClicked { selected: Some(0) },
        UiEvent::Toggled { switches: Leds { led1: true, led2: false, led3: true, led4: false } },
        UiEvent::DisconnectClicked,
        UiEvent::AllOnClicked,
    ]
    .into_iter();
    let mut after_mask = None;
    loop {
        let input = match next.take() {
            Some(input) => input,
            None => match clicks.next() {
                Some(click) => {
                    if click == UiEvent::DisconnectClicked {
                        after_mask = Some(peripheral);
                    }
                    shown.extend(ui.feedback_for(click));
                    Input::Command(ui.command_for(click).unwrap())
                }
                None => break,
            },
        };
        let effects = worker.step(input);
        next = perform(effects, &mut peripheral, &mut ui, &mut shown, &mut notified);
        // The user interface knows what the worker holds.
        assert_eq!(ui.is_connected(), worker.is_connected());
        assert_eq!(ui.device_count(), worker.last_scan().len());
    }

    let lit = after_mask.unwrap();
    assert_eq!(lit.leds, Leds { led1: true, led2: false, led3: true, led4: false });
    assert_eq!(lit.mask, 0x05);
    assert_eq!(notified, vec![0x05]);
    assert_eq!(peripheral.leds, Leds::new());
    assert_eq!(peripheral.link, Link::Advertising);
    assert!(!worker.is_connected());
    assert!(!ui.is_connected());
    let log = |text: &str| UiUpdate::AppendLog(text.to_string());
    assert_eq!(
        shown,
        vec![
            UiUpdate::EnableLedControls(false),
            log("Ready. Click Scan.\n"),
            log("BLE worker started.\n"),
            log("Scanning (5s)...\n"),
            UiUpdate::ShowDevices(vec!["HelloRust  |  AA  |  -40 dBm".to_string()]),
            log("Scan results: 1 device(s)\n"),
            log("Connect requested: AA\n"),
            log("Connected.\n"),
            UiUpdate::EnableLedControls(true),
            log("Wrote LED mask: 0x05\n"),
            log("Disconnecting...\n"),
            log("Disconnected.\n"),
            UiUpdate::EnableLedControls(false),
            UiUpdate::SetSwitches(Leds { led1: true, led2: true, led3: true, led4: true }),
            log("Not connected; ignoring LED write.\n"),
        ]
    );
    assert_eq!(UiMsg::Connected(false), UiMsg::Connected(false));
    assert_eq!(Cmd::SetMask(5), ui.command_for(UiEvent::Toggled { switches: lit.leds }).unwrap());
}
