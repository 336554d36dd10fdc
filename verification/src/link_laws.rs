//! What holds between the parts: the host worker and the peripheral, and the
//! host worker and the user interface.

use crate::gatt::{
    as_found, battery_service_table, led_service_table, lemma_first_with_uuid_found,
    lemma_peripheral_offers_mask,
};
use crate::identifier::LED_CHARACTERISTIC;
use crate::mask::Leds;
use crate::message::CmdView;
use crate::peripheral::{peripheral_step, Action, Note, Peripheral, ReportView};
use crate::ui::{request, selected_device, shown, UiEvent, UiView};
use crate::worker::{
    connected, entry_devices, first_entry, worker_step, EffectView, InputView, Phase, WorkerView,
};
use crate::worker_laws::lemma_first_entry_found;
use vstd::prelude::*;

verus! {

/// What the user interface knows after one effect of the worker: a message
/// changes it as [`shown`] says, any other effect does not.
pub open spec fn received(ui: UiView, effect: EffectView) -> UiView {
    match effect {
        EffectView::Emit(msg) => shown(ui, msg).0,
        _ => ui,
    }
}

/// What the user interface knows after the messages among `effects`, taken in
/// order.
pub open spec fn delivered(ui: UiView, effects: Seq<EffectView>) -> UiView
    decreases effects.len(),
{
    if effects.len() == 0 {
        ui
    } else {
        received(delivered(ui, effects.drop_last()), effects.last())
    }
}

/// Whether the user interface knows what the worker holds: the devices of the
/// last scan, and whether there is a connection.
pub open spec fn mirrors(ui: UiView, s: WorkerView) -> bool {
    &&& ui.devices == entry_devices(s.last_scan)
    &&& ui.connected == (s.connection is Some)
}

/// A worker that looks for the mask characteristic under its identifier, and
/// discovers what the peripheral offers, keeps the link without a warning and
/// writes to the mask characteristic.
pub proof fn lemma_worker_connects_to_peripheral(s: WorkerView)
    requires
        s.phase is Discovering,
        s.led_uuid == LED_CHARACTERISTIC,
    ensures
        ({
            let offered = seq![
                as_found(battery_service_table().characteristic),
                as_found(led_service_table().characteristic),
            ];
            worker_step(s, InputView::Discovered(offered)) == (
                WorkerView { phase: Phase::Idle, connection: Some(offered[1]), ..s },
                seq![EffectView::KeepLink { characteristic: 1 }, connected(true)],
            )
        }),
{
    lemma_peripheral_offers_mask();
    let offered = seq![
        as_found(battery_service_table().characteristic),
        as_found(led_service_table().characteristic),
    ];
    let effects = worker_step(s, InputView::Discovered(offered)).1;
    assert(effects =~= seq![EffectView::KeepLink { characteristic: 1 }, connected(true)]);
}

/// A mask set on a connected worker reaches the outputs: the worker asks for
/// a write of that one byte, and the peripheral that receives the byte sets
/// each output from its bit, keeps the byte as its mask and notifies it back.
pub proof fn lemma_mask_reaches_outputs(host: WorkerView, device: Peripheral, m: u8)
    requires
        host.phase is Idle,
        host.connection is Some,
        device.link is Connected,
    ensures
        worker_step(host, InputView::Command(CmdView::SetMask(m))) == (
            WorkerView { phase: Phase::Writing { value: m }, ..host },
            seq![EffectView::Write { value: m }],
        ),
        peripheral_step(device, ReportView::MaskWrite(seq![m])) == (
            Peripheral { mask: m, leds: Leds::of_mask(m), ..device },
            seq![
                Action::Log(Note::MaskWritten(m)),
                Action::SetOutputs(Leds::of_mask(m)),
                Action::Notify(m),
            ],
        ),
{
    let payload = seq![m];
    assert(payload.len() == 1 && payload[0] == m);
    let actions = peripheral_step(device, ReportView::MaskWrite(payload)).1;
    assert(actions =~= seq![
        Action::Log(Note::MaskWritten(m)),
        Action::SetOutputs(Leds::of_mask(m)),
        Action::Notify(m),
    ]);
}

/// Effects that carry no list of devices and no state of the connection
/// leave the user interface knowing what it knew.
proof fn lemma_logs_change_nothing(ui: UiView, effects: Seq<EffectView>)
    requires
        forall|i: int|
            0 <= i < effects.len() ==> !(#[trigger] effects[i] matches EffectView::Emit(msg)
                && !(msg is Log)),
    ensures
        delivered(ui, effects) == ui,
    decreases effects.len(),
{
    if effects.len() > 0 {
        let front = effects.drop_last();
        assert forall|i: int| 0 <= i < front.len() implies !(#[trigger] front[i]
            matches EffectView::Emit(msg) && !(msg is Log)) by {
            assert(front[i] == effects[i]);
        }
        lemma_logs_change_nothing(ui, front);
        assert(!(effects[effects.len() - 1] matches EffectView::Emit(msg) && !(msg is Log)));
    }
}

/// What the user interface knows after effects of which only the last may
/// carry a list of devices or a state of the connection.
proof fn lemma_last_effect_counts(ui: UiView, effects: Seq<EffectView>)
    requires
        effects.len() > 0,
        forall|i: int|
            0 <= i < effects.len() - 1 ==> !(#[trigger] effects[i] matches EffectView::Emit(msg)
                && !(msg is Log)),
    ensures
        delivered(ui, effects) == received(ui, effects.last()),
{
    let front = effects.drop_last();
    assert forall|i: int| 0 <= i < front.len() implies !(#[trigger] front[i]
        matches EffectView::Emit(msg) && !(msg is Log)) by {
        assert(front[i] == effects[i]);
    }
    lemma_logs_change_nothing(ui, front);
}

/// A user interface that knows what the worker holds, and receives the
/// messages of a step, knows what the worker holds after the step: it lists
/// the devices of the worker's last scan, and shows a connection exactly when
/// the worker has one.
pub proof fn lemma_ui_mirrors_worker(ui: UiView, s: WorkerView, input: InputView)
    requires
        mirrors(ui, s),
    ensures
        mirrors(delivered(ui, worker_step(s, input).1), worker_step(s, input).0),
{
    let (next, effects) = worker_step(s, input);
    match (s.phase, input) {
        (Phase::Listing, InputView::Peripherals(found)) => {
            // The list goes first and a log line follows.
            let front = effects.drop_last();
            assert(front =~= seq![effects[0]]);
            lemma_last_effect_counts(ui, front);
            assert(delivered(ui, front) == received(ui, effects[0]));
        },
        (Phase::Discovering, InputView::Discovered(found)) => {
            lemma_first_with_uuid_found(found, s.led_uuid);
            lemma_last_effect_counts(ui, effects);
        },
        (Phase::Idle, InputView::Command(CmdView::Disconnect)) => {
            lemma_last_effect_counts(ui, effects);
        },
        (_, InputView::Failed(why)) => {
            if effects.len() > 0 && effects.last() == connected(false) {
                lemma_last_effect_counts(ui, effects);
            } else {
                lemma_logs_change_nothing(ui, effects);
            }
        },
        _ => {
            lemma_logs_change_nothing(ui, effects);
        },
    }
}

/// A connect that the user asks for by a row of the list is not turned down
/// by an idle worker whose last scan the list shows.
pub proof fn lemma_listed_device_is_known(ui: UiView, s: WorkerView, selected: Option<i32>)
    requires
        mirrors(ui, s),
        selected_device(ui.devices, selected) is Some,
    ensures
        request(ui, UiEvent::ConnectClicked { selected }) matches Some(CmdView::Connect { addr })
            && first_entry(s.last_scan, addr) is Some,
{
    let row = selected->Some_0 as int;
    let addr = ui.devices[row].addr;
    assert(entry_devices(s.last_scan)[row] == s.last_scan[row].info);
    lemma_first_entry_found(s.last_scan, addr);
}

} // verus!
