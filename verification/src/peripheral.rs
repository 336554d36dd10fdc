//! The peripheral: it advertises, serves one central, and turns a write to
//! the mask characteristic into the state of the four outputs.
//!
//! [`Peripheral::step`] takes what the radio reports and returns what to do
//! about it, in order.

use crate::identifier::{BATTERY_SERVICE, LED_SERVICE};
use crate::mask::Leds;
use vstd::prelude::*;

verus! {

/// The name under which the peripheral advertises.
pub const DEVICE_NAME: &'static str = "HelloRust";

/// Where the peripheral stands.
#[derive(Debug, Clone, Copy, PartialEq, Eq, Structural)]
pub enum Link {
    /// Not advertising and not connected.
    Idle,
    /// Advertising, until a central connects.
    Advertising,
    /// Serving the one central that connected.
    Connected,
}

/// Who ended a connection.
#[derive(Debug, Clone, Copy, PartialEq, Eq, Structural)]
pub enum Cause {
    /// The peripheral itself.
    Local,
    /// The central.
    Remote,
    /// Nobody: the link was lost.
    LinkLost,
}

/// What the radio reports.
#[derive(Debug, Clone, PartialEq, Eq)]
pub enum Report {
    /// The peripheral is to advertise.
    Start,
    /// A central connected.
    Accepted,
    /// The central wrote these bytes to the mask characteristic.
    MaskWrite(Vec<u8>),
    /// The central switched notifications of the mask on or off.
    MaskSubscription(bool),
    /// The central switched notifications of the battery level on or off.
    BatterySubscription(bool),
    /// The notification of the step before did not go out.
    NotifyFailed,
    /// The connection ended.
    Disconnected(Cause),
}

/// What a [`Report`] holds, as plain values.
pub enum ReportView {
    Start,
    Accepted,
    MaskWrite(Seq<u8>),
    MaskSubscription(bool),
    BatterySubscription(bool),
    NotifyFailed,
    Disconnected(Cause),
}

impl View for Report {
    type V = ReportView;

    open spec fn view(&self) -> ReportView {
        match self {
            Report::Start => ReportView::Start,
            Report::Accepted => ReportView::Accepted,
            Report::MaskWrite(payload) => ReportView::MaskWrite(payload@),
            Report::MaskSubscription(on) => ReportView::MaskSubscription(*on),
            Report::BatterySubscription(on) => ReportView::BatterySubscription(*on),
            Report::NotifyFailed => ReportView::NotifyFailed,
            Report::Disconnected(cause) => ReportView::Disconnected(*cause),
        }
    }
}

/// Something worth a line in the peripheral's log.
#[derive(Debug, Clone, Copy, PartialEq, Eq, Structural)]
pub enum Note {
    /// A central connected.
    Connected,
    /// A write set the mask to this value.
    MaskWritten(u8),
    /// A write to the mask had this many bytes in place of one.
    MalformedWrite { length: usize },
    /// A notification did not go out.
    NotifyFailed,
    /// Notifications of the mask are now on or off.
    MaskNotifications(bool),
    /// Notifications of the battery level are now on or off.
    BatteryNotifications(bool),
    /// The connection ended.
    Disconnected(Cause),
}

/// What the peripheral broadcasts while it waits for a central.
#[derive(Debug, Clone, Copy, PartialEq, Eq)]
pub struct Advertisement {
    /// Flag: any central may discover the peripheral, at any time.
    pub general_discovery: bool,
    /// Flag: the peripheral speaks Low Energy only.
    pub le_only: bool,
    /// The complete list of services with an assigned number: this one.
    pub service: u16,
    /// The complete name of the device.
    pub name: &'static str,
    /// The complete list of services with an identifier of their own, which
    /// goes out in the scan response: this one.
    pub scan_response_service: u128,
}

/// What the board is to do for the peripheral.
#[derive(Debug, Clone, Copy, PartialEq, Eq)]
pub enum Action {
    /// Advertise this, connectable and undirected, until a central connects.
    Advertise(Advertisement),
    /// Bring the four outputs to this state.
    SetOutputs(Leds),
    /// Notify the central of this value of the mask.
    Notify(u8),
    /// Write a line to the log.
    Log(Note),
}

/// The peripheral's state.
#[derive(Debug, Clone, Copy, PartialEq, Eq, Structural)]
pub struct Peripheral {
    pub link: Link,
    /// The outputs as they are now.
    pub leds: Leds,
    /// The value of the mask characteristic: the last mask that a write set.
    pub mask: u8,
    /// Whether the central asked for notifications of the mask.
    pub mask_notifications: bool,
    /// Whether the central asked for notifications of the battery level.
    pub battery_notifications: bool,
}

/// The advertisement of the peripheral: the battery service and the name in
/// the advertisement itself, the LED service in the scan response.
pub open spec fn advertisement() -> Advertisement {
    Advertisement {
        general_discovery: true,
        le_only: true,
        service: BATTERY_SERVICE,
        name: DEVICE_NAME,
        scan_response_service: LED_SERVICE,
    }
}

/// The mask that a write carries: its first byte. A write without a byte
/// carries none.
pub open spec fn decoded(payload: Seq<u8>) -> Option<u8> {
    if payload.len() == 0 {
        None
    } else {
        Some(payload[0])
    }
}

/// What a connected peripheral does with a write to the mask characteristic.
/// The outputs are set before the notification goes out.
pub open spec fn written(s: Peripheral, payload: Seq<u8>) -> (Peripheral, Seq<Action>) {
    let complaint = if payload.len() == 1 {
        seq![]
    } else {
        seq![Action::Log(Note::MalformedWrite { length: payload.len() as usize })]
    };
    match decoded(payload) {
        Some(m) => (
            Peripheral { mask: m, leds: Leds::of_mask(m), ..s },
            complaint + seq![
                Action::Log(Note::MaskWritten(m)),
                Action::SetOutputs(Leds::of_mask(m)),
                Action::Notify(m),
            ],
        ),
        None => (s, complaint),
    }
}

/// One step of the peripheral: the state after `report` and the actions to
/// perform, in order. A report that does not fit the state changes nothing
/// and has no action.
pub open spec fn peripheral_step(s: Peripheral, report: ReportView) -> (Peripheral, Seq<Action>) {
    match (s.link, report) {
        (Link::Idle, ReportView::Start) => (
            Peripheral { link: Link::Advertising, ..s },
            seq![Action::Advertise(advertisement())],
        ),
        (Link::Advertising, ReportView::Accepted) => (
            Peripheral {
                link: Link::Connected,
                mask_notifications: false,
                battery_notifications: false,
                ..s
            },
            seq![Action::Log(Note::Connected)],
        ),
        (Link::Connected, ReportView::MaskWrite(payload)) => written(s, payload),
        (Link::Connected, ReportView::MaskSubscription(on)) => (
            Peripheral { mask_notifications: on, ..s },
            seq![Action::Log(Note::MaskNotifications(on))],
        ),
        (Link::Connected, ReportView::BatterySubscription(on)) => (
            Peripheral { battery_notifications: on, ..s },
            seq![Action::Log(Note::BatteryNotifications(on))],
        ),
        (Link::Connected, ReportView::NotifyFailed) => (s, seq![Action::Log(Note::NotifyFailed)]),
        (Link::Connected, ReportView::Disconnected(cause)) => (
            Peripheral { link: Link::Idle, leds: Leds::dark(), ..s },
            seq![Action::Log(Note::Disconnected(cause)), Action::SetOutputs(Leds::dark())],
        ),
        _ => (s, seq![]),
    }
}

/// What holds of the peripheral at all times: without a connection all
/// outputs are off, and with one they are off or as the mask says.
pub open spec fn consistent(s: Peripheral) -> bool {
    &&& !(s.link is Connected) ==> s.leds == Leds::dark()
    &&& s.leds == Leds::dark() || s.leds == Leds::of_mask(s.mask)
}

/// Reads the mask from the bytes of a write: the first byte counts, the rest
/// is passed over.
pub fn decode_mask(payload: &Vec<u8>) -> (m: Option<u8>)
    ensures
        m == decoded(payload@),
{
    if payload.len() == 0 {
        None
    } else {
        Some(payload[0])
    }
}

impl Peripheral {
    /// The peripheral at power-up: idle, all outputs off, the mask 0.
    pub fn new() -> (s: Peripheral)
        ensures
            s == (Peripheral {
                link: Link::Idle,
                leds: Leds::dark(),
                mask: 0,
                mask_notifications: false,
                battery_notifications: false,
            }),
            consistent(s),
    {
        Peripheral {
            link: Link::Idle,
            leds: Leds::new(),
            mask: 0,
            mask_notifications: false,
            battery_notifications: false,
        }
    }

    /// What the peripheral broadcasts while it waits for a central.
    pub fn advertisement() -> (a: Advertisement)
        ensures
            a == advertisement(),
    {
        Advertisement {
            general_discovery: true,
            le_only: true,
            service: BATTERY_SERVICE,
            name: DEVICE_NAME,
            scan_response_service: LED_SERVICE,
        }
    }

    /// Takes a write to the mask characteristic.
    fn written(&mut self, payload: Vec<u8>) -> (actions: Vec<Action>)
        ensures
            (*final(self), actions@) == written(*old(self), payload@),
    {
        let mut actions: Vec<Action> = Vec::new();
        if payload.len() != 1 {
            actions.push(Action::Log(Note::MalformedWrite { length: payload.len() }));
        }
        match decode_mask(&payload) {
            Some(m) => {
                actions.push(Action::Log(Note::MaskWritten(m)));
                self.mask = m;
                self.leds.apply_mask(m);
                actions.push(Action::SetOutputs(self.leds));
                actions.push(Action::Notify(m));
            },
            None => {},
        }
        assert(actions@ =~= written(*old(self), payload@).1);
        actions
    }

    /// Takes what the radio reports and returns what to do about it, in
    /// order.
    pub fn step(&mut self, report: Report) -> (actions: Vec<Action>)
        ensures
            (*final(self), actions@) == peripheral_step(*old(self), report@),
            consistent(*old(self)) ==> consistent(*final(self)),
    {
        let mut actions: Vec<Action> = Vec::new();
        match self.link {
            Link::Idle => {
                if let Report::Start = report {
                    self.link = Link::Advertising;
                    actions.push(Action::Advertise(Peripheral::advertisement()));
                }
            },
            Link::Advertising => {
                if let Report::Accepted = report {
                    self.link = Link::Connected;
                    self.mask_notifications = false;
                    self.battery_notifications = false;
                    actions.push(Action::Log(Note::Connected));
                }
            },
            Link::Connected => {
                match report {
                    Report::MaskWrite(payload) => {
                        return self.written(payload);
                    },
                    Report::MaskSubscription(on) => {
                        self.mask_notifications = on;
                        actions.push(Action::Log(Note::MaskNotifications(on)));
                    },
                    Report::BatterySubscription(on) => {
                        self.battery_notifications = on;
                        actions.push(Action::Log(Note::BatteryNotifications(on)));
                    },
                    Report::NotifyFailed => {
                        actions.push(Action::Log(Note::NotifyFailed));
                    },
                    Report::Disconnected(cause) => {
                        actions.push(Action::Log(Note::Disconnected(cause)));
                        self.link = Link::Idle;
                        self.leds.all_off();
                        actions.push(Action::SetOutputs(self.leds));
                    },
                    _ => {},
                }
            },
        }
        assert(actions@ =~= peripheral_step(*old(self), report@).1);
        actions
    }
}

/// The end of a connection, whatever its cause, leaves all four outputs off
/// and says so to the board, whatever the mask was.
pub proof fn lemma_disconnect_darkens(s: Peripheral, cause: Cause)
    requires
        s.link is Connected,
    ensures
        ({
            let (next, actions) = peripheral_step(s, ReportView::Disconnected(cause));
            &&& next.leds == Leds::dark()
            &&& next.link is Idle
            &&& next.mask == s.mask
            &&& actions.last() == Action::SetOutputs(Leds::dark())
        }),
{
}

/// The mask changes by a write that carries a byte, and by nothing else; it
/// is then that byte, and the outputs follow it.
pub proof fn lemma_mask_is_last_written(s: Peripheral, report: ReportView)
    ensures
        ({
            let next = peripheral_step(s, report).0;
            match report {
                ReportView::MaskWrite(payload) => if s.link is Connected && payload.len() > 0 {
                    next.mask == payload[0] && next.leds == Leds::of_mask(payload[0])
                } else {
                    next.mask == s.mask
                },
                _ => next.mask == s.mask,
            }
        }),
{
}

/// A step keeps the peripheral consistent.
pub proof fn lemma_step_keeps_consistent(s: Peripheral, report: ReportView)
    requires
        consistent(s),
    ensures
        consistent(peripheral_step(s, report).0),
{
}

/// A notification goes out only after the outputs are set, and carries the
/// mask that they were set from.
pub proof fn lemma_outputs_before_notification(s: Peripheral, report: ReportView, i: int)
    requires
        0 <= i < peripheral_step(s, report).1.len(),
        peripheral_step(s, report).1[i] is Notify,
    ensures
        ({
            let (next, actions) = peripheral_step(s, report);
            &&& i > 0
            &&& actions[i - 1] == Action::SetOutputs(next.leds)
            &&& actions[i] == Action::Notify(next.mask)
            &&& next.leds == Leds::of_mask(next.mask)
        }),
{
}

} // verus!
