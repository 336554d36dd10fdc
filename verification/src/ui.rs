//! The user interface without its widgets: what it shows, what it asks of
//! the worker, and how a message from the worker changes it.

use crate::device::{device_views, DeviceInfo, DeviceInfoView};
use crate::mask::{mask_from_toggles, Leds, ALL_OFF, ALL_ON};
use crate::message::{Cmd, CmdView, UiMsg, UiMsgView};
use crate::text::{log_line, log_text, signed_decimal, signed_text};
use vstd::prelude::*;
use vstd::string::*;

verus! {

/// How often the user interface looks for messages of the worker, in
/// milliseconds.
pub const POLL_INTERVAL_MS: u64 = 50;

/// What the user did.
#[derive(Debug, Clone, Copy, PartialEq, Eq, Structural)]
pub enum UiEvent {
    /// Pressed "Scan".
    ScanClicked,
    /// Pressed "Connect", with this row of the device list selected.
    ConnectClicked { selected: Option<i32> },
    /// Pressed "Disconnect".
    DisconnectClicked,
    /// Flipped one of the four switches, which now stand like this.
    Toggled { switches: Leds },
    /// Pressed "All On".
    AllOnClicked,
    /// Pressed "All Off".
    AllOffClicked,
}

/// A change to what the user sees.
#[derive(Debug, Clone, PartialEq, Eq)]
pub enum UiUpdate {
    /// Add this text at the end of the log and scroll to it.
    AppendLog(String),
    /// Replace the rows of the device list by these.
    ShowDevices(Vec<String>),
    /// Let the user use the switches and the two mask buttons, or not.
    EnableLedControls(bool),
    /// Put the four switches in this position.
    SetSwitches(Leds),
}

/// What a [`UiUpdate`] holds, as plain values.
pub enum UiUpdateView {
    AppendLog(Seq<char>),
    ShowDevices(Seq<Seq<char>>),
    EnableLedControls(bool),
    SetSwitches(Leds),
}

/// The texts of a list of strings, in the same order.
pub open spec fn texts(rows: Seq<String>) -> Seq<Seq<char>> {
    Seq::new(rows.len(), |i: int| rows[i]@)
}

impl View for UiUpdate {
    type V = UiUpdateView;

    open spec fn view(&self) -> UiUpdateView {
        match self {
            UiUpdate::AppendLog(text) => UiUpdateView::AppendLog(text@),
            UiUpdate::ShowDevices(rows) => UiUpdateView::ShowDevices(texts(rows@)),
            UiUpdate::EnableLedControls(on) => UiUpdateView::EnableLedControls(*on),
            UiUpdate::SetSwitches(switches) => UiUpdateView::SetSwitches(*switches),
        }
    }
}

/// The views of a list of updates, in the same order.
pub open spec fn update_views(updates: Seq<UiUpdate>) -> Seq<UiUpdateView> {
    Seq::new(updates.len(), |i: int| updates[i]@)
}

/// What the user interface knows, as plain values.
pub struct UiView {
    /// The devices of the list, row by row.
    pub devices: Seq<DeviceInfoView>,
    /// Whether the worker said that a device is connected.
    pub connected: bool,
}

/// The row of the device list for a device: name, address and signal
/// strength.
pub open spec fn device_row(d: DeviceInfoView) -> Seq<char> {
    let name = match d.name {
        Some(n) => n,
        None => "(no name)"@,
    };
    let strength = match d.rssi {
        Some(v) => signed_text(v as int) + " dBm"@,
        None => "? dBm"@,
    };
    name + "  |  "@ + d.addr + "  |  "@ + strength
}

/// The rows of the device list for a list of devices.
pub open spec fn device_rows(devices: Seq<DeviceInfoView>) -> Seq<Seq<char>> {
    Seq::new(devices.len(), |i: int| device_row(devices[i]))
}

/// The device in the selected row, if a row is selected and the list has it.
pub open spec fn selected_device(devices: Seq<DeviceInfoView>, selected: Option<i32>) -> Option<
    DeviceInfoView,
> {
    match selected {
        Some(row) => if 0 <= row < devices.len() {
            Some(devices[row as int])
        } else {
            None
        },
        None => None,
    }
}

/// The command that goes to the worker for what the user did, if any.
pub open spec fn request(s: UiView, event: UiEvent) -> Option<CmdView> {
    match event {
        UiEvent::ScanClicked => Some(CmdView::Scan),
        UiEvent::ConnectClicked { selected } => match selected_device(s.devices, selected) {
            Some(d) => Some(CmdView::Connect { addr: d.addr }),
            None => None,
        },
        UiEvent::DisconnectClicked => Some(CmdView::Disconnect),
        UiEvent::Toggled { switches } => Some(CmdView::SetMask(switches.mask())),
        UiEvent::AllOnClicked => Some(CmdView::SetMask(ALL_ON)),
        UiEvent::AllOffClicked => Some(CmdView::SetMask(ALL_OFF)),
    }
}

/// What the user sees change for what the user did, before any answer of the
/// worker.
pub open spec fn feedback(event: UiEvent) -> Seq<UiUpdateView> {
    match event {
        UiEvent::AllOnClicked => seq![UiUpdateView::SetSwitches(Leds::of_mask(ALL_ON))],
        UiEvent::AllOffClicked => seq![UiUpdateView::SetSwitches(Leds::dark())],
        _ => seq![],
    }
}

/// What a message of the worker changes: the state after it and the updates
/// to show, in order.
pub open spec fn shown(s: UiView, msg: UiMsgView) -> (UiView, Seq<UiUpdateView>) {
    match msg {
        UiMsgView::Log(line) => (s, seq![UiUpdateView::AppendLog(log_line(line))]),
        UiMsgView::ScanResults(devices) => (
            UiView { devices, ..s },
            seq![UiUpdateView::ShowDevices(device_rows(devices))],
        ),
        UiMsgView::Connected(on) => (
            UiView { connected: on, ..s },
            seq![
                UiUpdateView::AppendLog(
                    log_line(
                        if on {
                            "Connected."@
                        } else {
                            "Disconnected."@
                        },
                    ),
                ),
                UiUpdateView::EnableLedControls(on),
            ],
        ),
    }
}

/// What the user sees when the user interface comes up.
pub open spec fn greeting() -> Seq<UiUpdateView> {
    seq![
        UiUpdateView::EnableLedControls(false),
        UiUpdateView::AppendLog(log_line("Ready. Click Scan."@)),
    ]
}

/// The row of the device list for a device.
pub fn device_label(d: &DeviceInfo) -> (row: String)
    ensures
        row@ == device_row(d@),
{
    let mut row = match &d.name {
        Some(n) => n.clone(),
        None => String::from_str("(no name)"),
    };
    row.append("  |  ");
    row.append(d.addr.as_str());
    row.append("  |  ");
    match d.rssi {
        Some(v) => {
            let digits = signed_decimal(v);
            row.append(digits.as_str());
            row.append(" dBm");
        },
        None => {
            row.append("? dBm");
        },
    }
    assert(row@ =~= device_row(d@));
    row
}

/// The rows of the device list for a list of devices.
pub fn device_labels(devices: &Vec<DeviceInfo>) -> (rows: Vec<String>)
    ensures
        texts(rows@) == device_rows(device_views(devices@)),
{
    let mut rows: Vec<String> = Vec::new();
    let mut i: usize = 0;
    while i < devices.len()
        invariant
            i <= devices.len(),
            rows.len() == i,
            forall|j: int| 0 <= j < i ==> (#[trigger] rows[j])@ == device_row(devices[j]@),
        decreases devices.len() - i,
    {
        rows.push(device_label(&devices[i]));
        i = i + 1;
    }
    assert(texts(rows@) =~= device_rows(device_views(devices@)));
    rows
}

/// What the user interface knows: the device list and whether a device is
/// connected.
pub struct UiState {
    devices: Vec<DeviceInfo>,
    connected: bool,
}

impl View for UiState {
    type V = UiView;

    closed spec fn view(&self) -> UiView {
        UiView { devices: device_views(self.devices@), connected: self.connected }
    }
}

impl UiState {
    /// A user interface with no device listed and none connected.
    pub fn new() -> (s: UiState)
        ensures
            s@ == (UiView { devices: Seq::empty(), connected: false }),
    {
        let s = UiState { devices: Vec::new(), connected: false };
        assert(s@.devices =~= Seq::empty());
        s
    }

    /// The updates that bring the widgets to their first state.
    pub fn greet(&self) -> (updates: Vec<UiUpdate>)
        ensures
            update_views(updates@) == greeting(),
    {
        let mut updates: Vec<UiUpdate> = Vec::new();
        updates.push(UiUpdate::EnableLedControls(false));
        updates.push(UiUpdate::AppendLog(log_text("Ready. Click Scan.")));
        assert(update_views(updates@) =~= greeting());
        updates
    }

    /// Whether the worker said that a device is connected.
    pub fn is_connected(&self) -> (r: bool)
        ensures
            r == self@.connected,
    {
        self.connected
    }

    /// How many devices the list holds.
    pub fn device_count(&self) -> (n: usize)
        ensures
            n == self@.devices.len(),
    {
        self.devices.len()
    }

    /// The command for what the user did, if it leads to one.
    pub fn command_for(&self, event: UiEvent) -> (command: Option<Cmd>)
        ensures
            match command {
                Some(c) => request(self@, event) == Some(c@),
                None => request(self@, event) is None,
            },
    {
        match event {
            UiEvent::ScanClicked => Some(Cmd::Scan),
            UiEvent::ConnectClicked { selected } => {
                match selected {
                    Some(row) => {
                        if row < 0 {
                            return None;
                        }
                        let at: usize = row as usize;
                        if at < self.devices.len() {
                            Some(Cmd::Connect { addr: self.devices[at].addr.clone() })
                        } else {
                            None
                        }
                    },
                    None => None,
                }
            },
            UiEvent::DisconnectClicked => Some(Cmd::Disconnect),
            UiEvent::Toggled { switches } => Some(
                Cmd::SetMask(
                    mask_from_toggles(switches.led1, switches.led2, switches.led3, switches.led4),
                ),
            ),
            UiEvent::AllOnClicked => Some(Cmd::SetMask(ALL_ON)),
            UiEvent::AllOffClicked => Some(Cmd::SetMask(ALL_OFF)),
        }
    }

    /// The updates for what the user did, before any answer of the worker.
    pub fn feedback_for(&self, event: UiEvent) -> (updates: Vec<UiUpdate>)
        ensures
            update_views(updates@) == feedback(event),
    {
        let mut updates: Vec<UiUpdate> = Vec::new();
        match event {
            UiEvent::AllOnClicked => {
                let mut switches = Leds::new();
                switches.apply_mask(ALL_ON);
                updates.push(UiUpdate::SetSwitches(switches));
            },
            UiEvent::AllOffClicked => {
                updates.push(UiUpdate::SetSwitches(Leds::new()));
            },
            _ => {},
        }
        assert(update_views(updates@) =~= feedback(event));
        updates
    }

    /// Takes a message of the worker and returns the updates to show, in
    /// order.
    pub fn apply(&mut self, msg: UiMsg) -> (updates: Vec<UiUpdate>)
        ensures
            (final(self)@, update_views(updates@)) == shown(old(self)@, msg@),
    {
        let mut updates: Vec<UiUpdate> = Vec::new();
        match msg {
            UiMsg::Log(line) => {
                updates.push(UiUpdate::AppendLog(log_text(line.as_str())));
            },
            UiMsg::ScanResults(devices) => {
                updates.push(UiUpdate::ShowDevices(device_labels(&devices)));
                self.devices = devices;
            },
            UiMsg::Connected(on) => {
                self.connected = on;
                let line = if on {
                    "Connected."
                } else {
                    "Disconnected."
                };
                updates.push(UiUpdate::AppendLog(log_text(line)));
                updates.push(UiUpdate::EnableLedControls(on));
            },
        }
        assert(update_views(updates@) =~= shown(old(self)@, msg@).1);
        updates
    }
}

} // verus!
