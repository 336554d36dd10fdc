//! The host worker: it takes one command at a time and turns it into radio
//! work and messages for the user interface.
//!
//! The worker itself touches no radio. [`Worker::step`] takes what happened
//! (a command arrived, an operation ended) and returns the effects to perform,
//! in order. At most one effect of a step is a request, and it is the last:
//! its outcome is the next input.

use crate::device::{device_views, listing_order, scan_order, DeviceInfo, DeviceInfoView};
use crate::gatt::{announces_write, find_characteristic, first_with_uuid, CharacteristicInfo};
use crate::message::{Cmd, CmdView, UiMsg, UiMsgView};
use crate::text::{decimal, decimal_text, hex_byte, hex_byte_text};
use crate::worker_laws::lemma_step_keeps_consistent;
use vstd::prelude::*;
use vstd::string::*;

verus! {

/// How long a scan gathers advertisements, in seconds.
pub const SCAN_DWELL_SECONDS: u64 = 5;

/// The log line for a mask characteristic that announces no write.
pub const WRITE_WARNING: &'static str =
    "Warning: LED characteristic doesn't advertise WRITE; attempting anyway.";

/// Where the worker stands.
#[derive(Debug, Clone, Copy, PartialEq, Eq, Structural)]
pub enum Phase {
    /// Not started.
    Created,
    /// Waiting for the adapter.
    Booting,
    /// Ready for a command.
    Idle,
    /// Waiting for the scan to start.
    StartingScan,
    /// Waiting for the scan to gather advertisements.
    Dwelling,
    /// Waiting for the list of visible devices.
    Listing,
    /// Waiting for the link to open.
    OpeningLink,
    /// Waiting for the characteristics of the device on the new link.
    Discovering,
    /// Waiting for the confirmation of a write of `value`.
    Writing { value: u8 },
    /// Ended by a failure; nothing is processed any more.
    Stopped,
}

/// A device of the last scan, with the position at which the adapter listed
/// it.
#[derive(Debug, Clone, PartialEq, Eq)]
pub struct ScanEntry {
    pub info: DeviceInfo,
    pub peripheral: usize,
}

/// What a [`ScanEntry`] holds, as plain values.
pub struct ScanEntryView {
    pub info: DeviceInfoView,
    pub peripheral: usize,
}

impl View for ScanEntry {
    type V = ScanEntryView;

    open spec fn view(&self) -> ScanEntryView {
        ScanEntryView { info: self.info@, peripheral: self.peripheral }
    }
}

/// The views of a list of scan entries, in the same order.
pub open spec fn entry_views(entries: Seq<ScanEntry>) -> Seq<ScanEntryView> {
    Seq::new(entries.len(), |i: int| entries[i]@)
}

/// What happened: a command arrived, or the request of the step before ended.
#[derive(Debug, Clone, PartialEq, Eq)]
pub enum Input {
    /// The worker is started.
    Start,
    /// The next command of the queue.
    Command(Cmd),
    /// An adapter is at hand.
    AdapterReady,
    /// The scan runs.
    ScanStarted,
    /// The time for gathering advertisements is over.
    DwellElapsed,
    /// The devices that the adapter sees, as it lists them.
    Peripherals(Vec<DeviceInfo>),
    /// The link is open.
    LinkOpened,
    /// The characteristics of the device on the new link.
    Discovered(Vec<CharacteristicInfo>),
    /// The device confirmed the write.
    Written,
    /// The request failed; the text says how.
    Failed(String),
}

/// What an [`Input`] holds, as plain values.
pub enum InputView {
    Start,
    Command(CmdView),
    AdapterReady,
    ScanStarted,
    DwellElapsed,
    Peripherals(Seq<DeviceInfoView>),
    LinkOpened,
    Discovered(Seq<CharacteristicInfo>),
    Written,
    Failed(Seq<char>),
}

impl View for Input {
    type V = InputView;

    open spec fn view(&self) -> InputView {
        match self {
            Input::Start => InputView::Start,
            Input::Command(c) => InputView::Command(c@),
            Input::AdapterReady => InputView::AdapterReady,
            Input::ScanStarted => InputView::ScanStarted,
            Input::DwellElapsed => InputView::DwellElapsed,
            Input::Peripherals(found) => InputView::Peripherals(device_views(found@)),
            Input::LinkOpened => InputView::LinkOpened,
            Input::Discovered(found) => InputView::Discovered(found@),
            Input::Written => InputView::Written,
            Input::Failed(why) => InputView::Failed(why@),
        }
    }
}

/// What the caller is to do for the worker.
#[derive(Debug, Clone, PartialEq, Eq)]
pub enum Effect {
    /// Send the message to the user interface.
    Emit(UiMsg),
    /// Request: find an adapter. Answered by `AdapterReady`.
    AcquireAdapter,
    /// Request: start a scan. Answered by `ScanStarted`.
    StartScan,
    /// Request: let this many seconds pass. Answered by `DwellElapsed`.
    Dwell { seconds: u64 },
    /// Request: list the devices that the adapter sees. Answered by
    /// `Peripherals`.
    ListPeripherals,
    /// Request: open a link to the device that the adapter listed at this
    /// position. Answered by `LinkOpened`.
    OpenLink { peripheral: usize },
    /// Request: discover the services of the device on the link just opened.
    /// Answered by `Discovered`.
    DiscoverServices,
    /// Close the link just opened; a failure to do so is passed over.
    AbandonLink,
    /// The link just opened is the connection from now on, and writes go to
    /// the characteristic that discovery listed at this position.
    KeepLink { characteristic: usize },
    /// Close the connection; a failure to do so is passed over.
    CloseLink,
    /// Request: write this one byte to the connection's characteristic and
    /// wait for the confirmation. Answered by `Written`.
    Write { value: u8 },
}

/// What an [`Effect`] holds, as plain values.
pub enum EffectView {
    Emit(UiMsgView),
    AcquireAdapter,
    StartScan,
    Dwell { seconds: u64 },
    ListPeripherals,
    OpenLink { peripheral: usize },
    DiscoverServices,
    AbandonLink,
    KeepLink { characteristic: usize },
    CloseLink,
    Write { value: u8 },
}

impl View for Effect {
    type V = EffectView;

    open spec fn view(&self) -> EffectView {
        match self {
            Effect::Emit(m) => EffectView::Emit(m@),
            Effect::AcquireAdapter => EffectView::AcquireAdapter,
            Effect::StartScan => EffectView::StartScan,
            Effect::Dwell { seconds } => EffectView::Dwell { seconds: *seconds },
            Effect::ListPeripherals => EffectView::ListPeripherals,
            Effect::OpenLink { peripheral } => EffectView::OpenLink { peripheral: *peripheral },
            Effect::DiscoverServices => EffectView::DiscoverServices,
            Effect::AbandonLink => EffectView::AbandonLink,
            Effect::KeepLink { characteristic } => EffectView::KeepLink {
                characteristic: *characteristic,
            },
            Effect::CloseLink => EffectView::CloseLink,
            Effect::Write { value } => EffectView::Write { value: *value },
        }
    }
}

/// The views of a list of effects, in the same order.
pub open spec fn effect_views(effects: Seq<Effect>) -> Seq<EffectView> {
    Seq::new(effects.len(), |i: int| effects[i]@)
}

/// The worker's state, as plain values.
pub struct WorkerView {
    pub phase: Phase,
    /// The devices of the last scan, in listing order.
    pub last_scan: Seq<ScanEntryView>,
    /// The characteristic that writes go to, while a device is connected.
    pub connection: Option<CharacteristicInfo>,
    /// The identifier of the characteristic that carries the mask.
    pub led_uuid: u128,
}

/// The effect that sends a log line.
pub open spec fn log(text: Seq<char>) -> EffectView {
    EffectView::Emit(UiMsgView::Log(text))
}

/// The effect that tells the user interface whether a device is connected.
pub open spec fn connected(on: bool) -> EffectView {
    EffectView::Emit(UiMsgView::Connected(on))
}

/// Whether `k` is the position of the first entry with the address `addr`.
pub open spec fn is_first_entry(scan: Seq<ScanEntryView>, addr: Seq<char>, k: int) -> bool {
    &&& 0 <= k < scan.len()
    &&& scan[k].info.addr == addr
    &&& forall|j: int| 0 <= j < k ==> scan[j].info.addr != addr
}

/// The position of the first entry with the address `addr`.
pub open spec fn first_entry(scan: Seq<ScanEntryView>, addr: Seq<char>) -> Option<int> {
    if exists|k: int| 0 <= k < scan.len() && scan[k].info.addr == addr {
        Some(choose|k: int| is_first_entry(scan, addr, k))
    } else {
        None
    }
}

/// The entries that a scan leaves: the devices in listing order, each with
/// the position at which the adapter listed it.
pub open spec fn scan_entries(found: Seq<DeviceInfoView>) -> Seq<ScanEntryView> {
    let order = listing_order(found);
    Seq::new(
        found.len(),
        |k: int| ScanEntryView { info: found[order[k] as int], peripheral: order[k] },
    )
}

/// The devices of a list of entries.
pub open spec fn entry_devices(entries: Seq<ScanEntryView>) -> Seq<DeviceInfoView> {
    Seq::new(entries.len(), |k: int| entries[k].info)
}

/// Whether the worker waits for the outcome of a request, and for nothing
/// else.
pub open spec fn awaits_outcome(phase: Phase) -> bool {
    !(phase is Created || phase is Idle || phase is Stopped)
}

/// Whether the effect is a request, which has an outcome.
pub open spec fn is_request(e: EffectView) -> bool {
    e is AcquireAdapter || e is StartScan || e is Dwell || e is ListPeripherals || e is OpenLink
        || e is DiscoverServices || e is Write
}

/// The worker gives up: it says why, lets go of the links it holds, and
/// processes nothing afterwards.
pub open spec fn stop(s: WorkerView, why: Seq<char>) -> (WorkerView, Seq<EffectView>) {
    let announce = seq![log("BLE worker error: "@ + why)];
    let pending = if s.phase is Discovering {
        seq![EffectView::AbandonLink]
    } else {
        seq![]
    };
    let active = if s.connection is Some {
        seq![EffectView::CloseLink, connected(false)]
    } else {
        seq![]
    };
    (WorkerView { phase: Phase::Stopped, connection: None, ..s }, announce + pending + active)
}

/// What an idle worker does with a command.
pub open spec fn begin(s: WorkerView, command: CmdView) -> (WorkerView, Seq<EffectView>) {
    match command {
        CmdView::Scan => (
            WorkerView { phase: Phase::StartingScan, ..s },
            seq![log("Scanning (5s)..."@), EffectView::StartScan],
        ),
        CmdView::Connect { addr } => match first_entry(s.last_scan, addr) {
            Some(k) => (
                WorkerView { phase: Phase::OpeningLink, ..s },
                seq![
                    log("Connect requested: "@ + addr),
                    EffectView::OpenLink { peripheral: s.last_scan[k].peripheral },
                ],
            ),
            None => (s, seq![log("That device wasn't in the last scan list."@)]),
        },
        CmdView::Disconnect => if s.connection is Some {
            (
                WorkerView { connection: None, ..s },
                seq![log("Disconnecting..."@), EffectView::CloseLink, connected(false)],
            )
        } else {
            (s, seq![connected(false)])
        },
        CmdView::SetMask(m) => if s.connection is Some {
            (
                WorkerView { phase: Phase::Writing { value: m }, ..s },
                seq![EffectView::Write { value: m }],
            )
        } else {
            (s, seq![log("Not connected; ignoring LED write."@)])
        },
    }
}

/// What the worker does with the list of visible devices: it replaces the
/// last scan, and reports the devices and their number.
pub open spec fn listed(s: WorkerView, found: Seq<DeviceInfoView>) -> (
    WorkerView,
    Seq<EffectView>,
) {
    let entries = scan_entries(found);
    (
        WorkerView { phase: Phase::Idle, last_scan: entries, ..s },
        seq![
            EffectView::Emit(UiMsgView::ScanResults(entry_devices(entries))),
            log("Scan results: "@ + decimal_text(found.len()) + " device(s)"@),
        ],
    )
}

/// What the worker does with the characteristics of the device on the new
/// link: with the mask characteristic among them the link becomes the
/// connection; without it the worker ends up disconnected.
pub open spec fn discovered(s: WorkerView, found: Seq<CharacteristicInfo>) -> (
    WorkerView,
    Seq<EffectView>,
) {
    match first_with_uuid(found, s.led_uuid) {
        Some(c) => {
            let warning = if announces_write(found[c].properties) {
                seq![]
            } else {
                seq![log(WRITE_WARNING@)]
            };
            (
                WorkerView { phase: Phase::Idle, connection: Some(found[c]), ..s },
                warning + seq![
                    EffectView::KeepLink { characteristic: c as usize },
                    connected(true),
                ],
            )
        },
        None => {
            let active = if s.connection is Some {
                seq![EffectView::CloseLink]
            } else {
                seq![]
            };
            (
                WorkerView { phase: Phase::Idle, connection: None, ..s },
                seq![log("LED characteristic not found on device."@), EffectView::AbandonLink]
                    + active + seq![connected(false)],
            )
        },
    }
}

/// One step of the worker: the state after `input` and the effects to
/// perform, in order. An input that the worker does not wait for changes
/// nothing and has no effect.
pub open spec fn worker_step(s: WorkerView, input: InputView) -> (WorkerView, Seq<EffectView>) {
    match (s.phase, input) {
        (Phase::Created, InputView::Start) => (
            WorkerView { phase: Phase::Booting, ..s },
            seq![EffectView::AcquireAdapter],
        ),
        (Phase::Booting, InputView::AdapterReady) => (
            WorkerView { phase: Phase::Idle, ..s },
            seq![log("BLE worker started."@)],
        ),
        (Phase::Idle, InputView::Command(command)) => begin(s, command),
        (Phase::StartingScan, InputView::ScanStarted) => (
            WorkerView { phase: Phase::Dwelling, ..s },
            seq![EffectView::Dwell { seconds: SCAN_DWELL_SECONDS }],
        ),
        (Phase::Dwelling, InputView::DwellElapsed) => (
            WorkerView { phase: Phase::Listing, ..s },
            seq![EffectView::ListPeripherals],
        ),
        (Phase::Listing, InputView::Peripherals(found)) => listed(s, found),
        (Phase::OpeningLink, InputView::LinkOpened) => (
            WorkerView { phase: Phase::Discovering, ..s },
            seq![EffectView::DiscoverServices],
        ),
        (Phase::Discovering, InputView::Discovered(found)) => discovered(s, found),
        (Phase::Writing { value }, InputView::Written) => (
            WorkerView { phase: Phase::Idle, ..s },
            seq![log("Wrote LED mask: 0x"@ + hex_byte_text(value))],
        ),
        (Phase::Writing { value }, InputView::Failed(why)) => (
            WorkerView { phase: Phase::Idle, ..s },
            seq![log("Write failed: "@ + why)],
        ),
        (_, InputView::Failed(why)) => if awaits_outcome(s.phase) {
            stop(s, why)
        } else {
            (s, seq![])
        },
        _ => (s, seq![]),
    }
}

/// What the worker has done after a series of inputs: the state it is in
/// and all effects, in order.
pub open spec fn run(s: WorkerView, inputs: Seq<InputView>) -> (WorkerView, Seq<EffectView>)
    decreases inputs.len(),
{
    if inputs.len() == 0 {
        (s, seq![])
    } else {
        let (next, first) = worker_step(s, inputs[0]);
        let (last, rest) = run(next, inputs.drop_first());
        (last, first + rest)
    }
}

/// Whether every entry names a position that the adapter listed in that scan,
/// and no two entries name the same.
pub open spec fn scan_is_sound(scan: Seq<ScanEntryView>) -> bool {
    &&& forall|k: int| 0 <= k < scan.len() ==> (#[trigger] scan[k]).peripheral < scan.len()
    &&& forall|k: int, l: int|
        #![trigger scan[k], scan[l]]
        0 <= k < l < scan.len() ==> scan[k].peripheral != scan[l].peripheral
}

/// What holds of the worker at all times: the last scan is sound, a
/// connection is to the mask characteristic, and a write is only waited for
/// on a connection.
pub open spec fn consistent(s: WorkerView) -> bool {
    &&& scan_is_sound(s.last_scan)
    &&& s.connection matches Some(c) ==> c.uuid == s.led_uuid
    &&& s.phase is Writing ==> s.connection is Some
}

/// The host worker. It holds the last scan and at most one connection.
pub struct Worker {
    phase: Phase,
    last_scan: Vec<ScanEntry>,
    connection: Option<CharacteristicInfo>,
    led_uuid: u128,
}

impl View for Worker {
    type V = WorkerView;

    closed spec fn view(&self) -> WorkerView {
        WorkerView {
            phase: self.phase,
            last_scan: entry_views(self.last_scan@),
            connection: self.connection,
            led_uuid: self.led_uuid,
        }
    }
}

/// The effect that sends `text` as a log line.
fn say(text: String) -> (e: Effect)
    ensures
        e@ == log(text@),
{
    Effect::Emit(UiMsg::Log(text))
}

/// The effect that sends a fixed log line.
fn say_str(text: &str) -> (e: Effect)
    ensures
        e@ == log(text@),
{
    Effect::Emit(UiMsg::Log(String::from_str(text)))
}

/// The text `head` followed by `tail`.
fn joined(head: &str, tail: &str) -> (r: String)
    ensures
        r@ == head@ + tail@,
{
    let mut r = String::from_str(head);
    r.append(tail);
    r
}

/// Finds the first entry of a scan with the address `addr`.
fn find_entry(scan: &Vec<ScanEntry>, addr: &String) -> (r: Option<usize>)
    ensures
        match r {
            Some(k) => k < scan.len() && first_entry(entry_views(scan@), addr@) == Some(k as int),
            None => first_entry(entry_views(scan@), addr@) is None,
        },
{
    let ghost entries = entry_views(scan@);
    let mut k: usize = 0;
    while k < scan.len()
        invariant
            k <= scan.len(),
            entries == entry_views(scan@),
            forall|j: int| 0 <= j < k ==> entries[j].info.addr != addr@,
        decreases scan.len() - k,
    {
        if scan[k].info.addr == *addr {
            proof {
                assert(entries[k as int] == scan[k as int]@);
                assert(is_first_entry(entries, addr@, k as int));
                let c = choose|c: int| is_first_entry(entries, addr@, c);
                assert(is_first_entry(entries, addr@, c));
                if c < k {
                    assert(entries[c].info.addr != addr@);
                } else if k < c {
                    assert(entries[k as int].info.addr == addr@);
                }
            }
            return Some(k);
        }
        proof {
            assert(entries[k as int] == scan[k as int]@);
        }
        k = k + 1;
    }
    None
}

/// The entries that a scan leaves.
fn entries_of(found: &Vec<DeviceInfo>) -> (entries: Vec<ScanEntry>)
    ensures
        entry_views(entries@) == scan_entries(device_views(found@)),
{
    let order = scan_order(found);
    let mut entries: Vec<ScanEntry> = Vec::new();
    let mut k: usize = 0;
    while k < order.len()
        invariant
            k <= order.len(),
            order.len() == found.len(),
            entries.len() == k,
            forall|j: int| 0 <= j < order.len() ==> (#[trigger] order[j]) < found.len(),
            forall|j: int|
                0 <= j < k ==> (#[trigger] entries[j])@ == (ScanEntryView {
                    info: found[order[j] as int]@,
                    peripheral: order[j],
                }),
        decreases order.len() - k,
    {
        let at: usize = order[k];
        entries.push(ScanEntry { info: found[at].duplicate(), peripheral: at });
        k = k + 1;
    }
    assert(entry_views(entries@) =~= scan_entries(device_views(found@)));
    entries
}

/// Copies of the devices of a list of entries.
fn devices_of(entries: &Vec<ScanEntry>) -> (devices: Vec<DeviceInfo>)
    ensures
        device_views(devices@) == entry_devices(entry_views(entries@)),
{
    let mut devices: Vec<DeviceInfo> = Vec::new();
    let mut k: usize = 0;
    while k < entries.len()
        invariant
            k <= entries.len(),
            devices.len() == k,
            forall|j: int| 0 <= j < k ==> (#[trigger] devices[j])@ == entries[j]@.info,
        decreases entries.len() - k,
    {
        devices.push(entries[k].info.duplicate());
        k = k + 1;
    }
    assert(device_views(devices@) =~= entry_devices(entry_views(entries@)));
    devices
}

impl Worker {
    /// A worker that is not started yet, for the mask characteristic with the
    /// identifier `led_uuid`.
    pub fn new(led_uuid: u128) -> (w: Worker)
        ensures
            w@ == (WorkerView {
                phase: Phase::Created,
                last_scan: Seq::empty(),
                connection: None,
                led_uuid,
            }),
            consistent(w@),
    {
        let w = Worker { phase: Phase::Created, last_scan: Vec::new(), connection: None, led_uuid };
        assert(w@.last_scan =~= Seq::empty());
        w
    }

    /// Where the worker stands.
    pub fn phase(&self) -> (p: Phase)
        ensures
            p == self@.phase,
    {
        self.phase
    }

    /// Whether the worker takes the next command now.
    pub fn is_idle(&self) -> (r: bool)
        ensures
            r == (self@.phase is Idle),
    {
        match self.phase {
            Phase::Idle => true,
            _ => false,
        }
    }

    /// Whether the worker has ended.
    pub fn is_stopped(&self) -> (r: bool)
        ensures
            r == (self@.phase is Stopped),
    {
        match self.phase {
            Phase::Stopped => true,
            _ => false,
        }
    }

    /// Whether a device is connected.
    pub fn is_connected(&self) -> (r: bool)
        ensures
            r == (self@.connection is Some),
    {
        self.connection.is_some()
    }

    /// The characteristic that writes go to, while a device is connected.
    pub fn connection(&self) -> (r: Option<CharacteristicInfo>)
        ensures
            r == self@.connection,
    {
        self.connection
    }

    /// The devices of the last scan, in listing order.
    pub fn last_scan(&self) -> (devices: Vec<DeviceInfo>)
        ensures
            device_views(devices@) == entry_devices(self@.last_scan),
    {
        devices_of(&self.last_scan)
    }

    /// Ends the worker after a failure that it cannot get over.
    fn stop(&mut self, why: String) -> (effects: Vec<Effect>)
        ensures
            (final(self)@, effect_views(effects@)) == stop(old(self)@, why@),
    {
        let mut effects: Vec<Effect> = Vec::new();
        effects.push(say(joined("BLE worker error: ", why.as_str())));
        if let Phase::Discovering = self.phase {
            effects.push(Effect::AbandonLink);
        }
        if self.connection.is_some() {
            effects.push(Effect::CloseLink);
            effects.push(Effect::Emit(UiMsg::Connected(false)));
        }
        self.phase = Phase::Stopped;
        self.connection = None;
        assert(effect_views(effects@) =~= stop(old(self)@, why@).1);
        effects
    }

    /// Takes up a command.
    fn begin(&mut self, command: Cmd) -> (effects: Vec<Effect>)
        ensures
            (final(self)@, effect_views(effects@)) == begin(old(self)@, command@),
    {
        let mut effects: Vec<Effect> = Vec::new();
        match command {
            Cmd::Scan => {
                effects.push(say_str("Scanning (5s)..."));
                effects.push(Effect::StartScan);
                self.phase = Phase::StartingScan;
            },
            Cmd::Connect { addr } => {
                match find_entry(&self.last_scan, &addr) {
                    Some(k) => {
                        let peripheral: usize = self.last_scan[k].peripheral;
                        effects.push(say(joined("Connect requested: ", addr.as_str())));
                        effects.push(Effect::OpenLink { peripheral });
                        self.phase = Phase::OpeningLink;
                    },
                    None => {
                        effects.push(say_str("That device wasn't in the last scan list."));
                    },
                }
            },
            Cmd::Disconnect => {
                if self.connection.is_some() {
                    effects.push(say_str("Disconnecting..."));
                    effects.push(Effect::CloseLink);
                    self.connection = None;
                }
                effects.push(Effect::Emit(UiMsg::Connected(false)));
            },
            Cmd::SetMask(m) => {
                if self.connection.is_some() {
                    effects.push(Effect::Write { value: m });
                    self.phase = Phase::Writing { value: m };
                } else {
                    effects.push(say_str("Not connected; ignoring LED write."));
                }
            },
        }
        assert(effect_views(effects@) =~= begin(old(self)@, command@).1);
        effects
    }

    /// Takes the list of visible devices at the end of a scan.
    fn listed(&mut self, found: Vec<DeviceInfo>) -> (effects: Vec<Effect>)
        ensures
            (final(self)@, effect_views(effects@)) == listed(old(self)@, device_views(found@)),
    {
        let entries = entries_of(&found);
        let devices = devices_of(&entries);
        let mut line = String::from_str("Scan results: ");
        let count = decimal(found.len() as u64);
        line.append(count.as_str());
        line.append(" device(s)");
        let mut effects: Vec<Effect> = Vec::new();
        effects.push(Effect::Emit(UiMsg::ScanResults(devices)));
        effects.push(say(line));
        self.last_scan = entries;
        self.phase = Phase::Idle;
        assert(effect_views(effects@) =~= listed(old(self)@, device_views(found@)).1);
        effects
    }

    /// Takes the characteristics of the device on the new link.
    fn discovered(&mut self, found: Vec<CharacteristicInfo>) -> (effects: Vec<Effect>)
        ensures
            (final(self)@, effect_views(effects@)) == discovered(old(self)@, found@),
    {
        let mut effects: Vec<Effect> = Vec::new();
        match find_characteristic(&found, self.led_uuid) {
            Some(c) => {
                let characteristic = found[c];
                if !characteristic.is_writable() {
                    effects.push(say_str(WRITE_WARNING));
                }
                effects.push(Effect::KeepLink { characteristic: c });
                effects.push(Effect::Emit(UiMsg::Connected(true)));
                self.connection = Some(characteristic);
            },
            None => {
                effects.push(say_str("LED characteristic not found on device."));
                effects.push(Effect::AbandonLink);
                if self.connection.is_some() {
                    effects.push(Effect::CloseLink);
                }
                effects.push(Effect::Emit(UiMsg::Connected(false)));
                self.connection = None;
            },
        }
        self.phase = Phase::Idle;
        assert(effect_views(effects@) =~= discovered(old(self)@, found@).1);
        effects
    }

    /// Takes what happened and returns what to do about it, in order. At most
    /// one of the effects is a request, and it is the last: its outcome is the
    /// next input. Without a request among them the worker is ready for the
    /// next command, or has ended.
    pub fn step(&mut self, input: Input) -> (effects: Vec<Effect>)
        ensures
            (final(self)@, effect_views(effects@)) == worker_step(old(self)@, input@),
            consistent(old(self)@) ==> consistent(final(self)@),
    {
        proof {
            if let Input::Peripherals(found) = &input {
                assert(device_views(found@).len() == found.len());
            }
            if consistent(self@) {
                lemma_step_keeps_consistent(self@, input@);
            }
        }
        let phase = self.phase;
        match input {
            Input::Start => {
                if let Phase::Created = phase {
                    self.phase = Phase::Booting;
                    return one(Effect::AcquireAdapter);
                }
            },
            Input::Command(command) => {
                if let Phase::Idle = phase {
                    return self.begin(command);
                }
            },
            Input::AdapterReady => {
                if let Phase::Booting = phase {
                    self.phase = Phase::Idle;
                    return one(say_str("BLE worker started."));
                }
            },
            Input::ScanStarted => {
                if let Phase::StartingScan = phase {
                    self.phase = Phase::Dwelling;
                    return one(Effect::Dwell { seconds: SCAN_DWELL_SECONDS });
                }
            },
            Input::DwellElapsed => {
                if let Phase::Dwelling = phase {
                    self.phase = Phase::Listing;
                    return one(Effect::ListPeripherals);
                }
            },
            Input::Peripherals(found) => {
                if let Phase::Listing = phase {
                    return self.listed(found);
                }
            },
            Input::LinkOpened => {
                if let Phase::OpeningLink = phase {
                    self.phase = Phase::Discovering;
                    return one(Effect::DiscoverServices);
                }
            },
            Input::Discovered(found) => {
                if let Phase::Discovering = phase {
                    return self.discovered(found);
                }
            },
            Input::Written => {
                if let Phase::Writing { value } = phase {
                    self.phase = Phase::Idle;
                    let digits = hex_byte(value);
                    return one(say(joined("Wrote LED mask: 0x", digits.as_str())));
                }
            },
            Input::Failed(why) => {
                match phase {
                    Phase::Writing { .. } => {
                        self.phase = Phase::Idle;
                        return one(say(joined("Write failed: ", why.as_str())));
                    },
                    Phase::Created | Phase::Idle | Phase::Stopped => {},
                    _ => {
                        return self.stop(why);
                    },
                }
            },
        }
        let effects: Vec<Effect> = Vec::new();
        assert(effect_views(effects@) =~= Seq::empty());
        effects
    }
}

/// A list of one effect.
fn one(e: Effect) -> (effects: Vec<Effect>)
    ensures
        effect_views(effects@) == seq![e@],
{
    let mut effects: Vec<Effect> = Vec::new();
    effects.push(e);
    assert(effect_views(effects@) =~= seq![e@]);
    effects
}

} // verus!
