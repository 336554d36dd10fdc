use led_link::device::DeviceInfo;
use led_link::mask::Leds;
use led_link::message::{Cmd, UiMsg};
use led_link::ui::{device_label, device_labels, UiEvent, UiState, UiUpdate};

fn device(addr: &str, name: Option<&str>, rssi: Option<i16>) -> DeviceInfo {
    DeviceInfo { addr: addr.to_string(), name: name.map(|n| n.to_string()), rssi }
}

fn listing() -> Vec<DeviceInfo> {
    vec![device("AA", Some("Tag"), Some(-40)), device("BB", None, Some(-30))]
}

#[test]
fn the_user_interface_comes_up_with_the_controls_off() {
    let ui = UiState::new();
    assert!(!ui.is_connected());
    assert_eq!(ui.device_count(), 0);
    assert_eq!(
        ui.greet(),
        vec![
            UiUpdate::EnableLedControls(false),
            UiUpdate::AppendLog("Ready. Click Scan.\n".to_string()),
        ]
    );
}

#[test]
fn a_row_shows_name_address_and_signal() {
    assert_eq!(device_label(&device("AA", Some("Tag"), Some(-40))), "Tag  |  AA  |  -40 dBm");
    assert_eq!(device_label(&device("BB", None, Some(-30))), "(no name)  |  BB  |  -30 dBm");
    assert_eq!(device_label(&device("CC", Some("x"), None)), "x  |  CC  |  ? dBm");
    assert_eq!(device_label(&device("", None, None)), "(no name)  |    |  ? dBm");
    assert_eq!(device_label(&device("DD", Some(""), Some(0))), "  |  DD  |  0 dBm");
    assert_eq!(
        device_labels(&listing()),
        vec!["Tag  |  AA  |  -40 dBm", "(no name)  |  BB  |  -30 dBm"]
    );
    assert!(device_labels(&Vec::new()).is_empty());
}

#[test]
fn a_log_message_is_appended_as_a_line() {
    let mut ui = UiState::new();
    assert_eq!(
        ui.apply(UiMsg::Log("Scanning (5s)...".to_string())),
        vec![UiUpdate::AppendLog("Scanning (5s)...\n".to_string())]
    );
    assert_eq!(
        ui.apply(UiMsg::Log("closed\n".to_string())),
        vec![UiUpdate::AppendLog("closed\n".to_string())]
    );
    assert!(!ui.is_connected());
    assert_eq!(ui.device_count(), 0);
}

#[test]
fn scan_results_replace_the_rows() {
    let mut ui = UiState::new();
    assert_eq!(
        ui.apply(UiMsg::ScanResults(listing())),
        vec![UiUpdate::ShowDevices(vec![
            "Tag  |  AA  |  -40 dBm".to_string(),
            "(no name)  |  BB  |  -30 dBm".to_string(),
        ])]
    );
    assert_eq!(ui.device_count(), 2);
    assert_eq!(
        ui.apply(UiMsg::ScanResults(vec![device("CC", None, None)])),
        vec![UiUpdate::ShowDevices(vec!["(no name)  |  CC  |  ? dBm".to_string()])]
    );
    assert_eq!(ui.device_count(), 1);
    assert_eq!(ui.apply(UiMsg::ScanResults(Vec::new())), vec![UiUpdate::ShowDevices(Vec::new())]);
    assert_eq!(ui.device_count(), 0);
}

#[test]
fn the_connection_state_switches_the_controls() {
    let mut ui = UiState::new();
    assert_eq!(
        ui.apply(UiMsg::Connected(true)),
        vec![UiUpdate::AppendLog("Connected.\n".to_string()), UiUpdate::EnableLedControls(true)]
    );
    assert!(ui.is_connected());
    assert_eq!(
        ui.apply(UiMsg::Connected(false)),
        vec![
            UiUpdate::AppendLog("Disconnected.\n".to_string()),
            UiUpdate::EnableLedControls(false),
        ]
    );
    assert!(!ui.is_connected());
}

#[test]
fn connect_asks_for_the_device_of_the_selected_row() {
    let mut ui = UiState::new();
    ui.apply(UiMsg::ScanResults(listing()));
    let connect = |selected| UiEvent::ConnectClicked { selected };
    assert_eq!(
        ui.command_for(connect(Some(0))),
        Some(Cmd::Connect { addr: "AA".to_string() })
    );
    assert_eq!(
        ui.command_for(connect(Some(1))),
        Some(Cmd::Connect { addr: "BB".to_string() })
    );
    assert_eq!(ui.command_for(connect(Some(2))), None);
    assert_eq!(ui.command_for(connect(Some(-1))), None);
    assert_eq!(ui.command_for(connect(Some(i32::MIN))), None);
    assert_eq!(ui.command_for(connect(Some(i32::MAX))), None);
    assert_eq!(ui.command_for(connect(None)), None);
    assert_eq!(UiState::new().command_for(connect(Some(0))), None);
}

#[test]
fn the_buttons_ask_for_their_commands() {
    let ui = UiState::new();
    assert_eq!(ui.command_for(UiEvent::ScanClicked), Some(Cmd::Scan));
    assert_eq!(ui.command_for(UiEvent::DisconnectClicked), Some(Cmd::Disconnect));
    assert_eq!(ui.command_for(UiEvent::AllOnClicked), Some(Cmd::SetMask(0x0f)));
    assert_eq!(ui.command_for(UiEvent::AllOffClicked), Some(Cmd::SetMask(0x00)));
}

#[test]
fn the_switches_ask_for_their_mask() {
    let ui = UiState::new();
    let toggled = |led1, led2, led3, led4| UiEvent::Toggled {
        switches: Leds { led1, led2, led3, led4 },
    };
    assert_eq!(ui.command_for(toggled(false, false, false, false)), Some(Cmd::SetMask(0x00)));
    assert_eq!(ui.command_for(toggled(true, false, true, false)), Some(Cmd::SetMask(0x05)));
    assert_eq!(ui.command_for(toggled(false, true, false, true)), Some(Cmd::SetMask(0x0a)));
    assert_eq!(ui.command_for(toggled(true, true, true, true)), Some(Cmd::SetMask(0x0f)));
}

#[test]
fn the_mask_buttons_move_the_switches() {
    let ui = UiState::new();
    assert_eq!(
        ui.feedback_for(UiEvent::AllOnClicked),
        vec![UiUpdate::SetSwitches(Leds { led1: true, led2: true, led3: true, led4: true })]
    );
    assert_eq!(
        ui.feedback_for(UiEvent::AllOffClicked),
        vec![UiUpdate::SetSwitches(Leds { led1: false, led2: false, led3: false, led4: false })]
    );
    assert_eq!(ui.feedback_for(UiEvent::ScanClicked), vec![]);
    assert_eq!(ui.feedback_for(UiEvent::DisconnectClicked), vec![]);
    assert_eq!(ui.feedback_for(UiEvent::ConnectClicked { selected: Some(0) }), vec![]);
    assert_eq!(ui.feedback_for(UiEvent::Toggled { switches: Leds::new() }), vec![]);
}
