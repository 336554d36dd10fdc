//! What holds of the host worker, whatever it is fed.

use crate::device::{lemma_listing_order_exists, listing, DeviceInfoView};
use crate::gatt::lemma_first_with_uuid_found;
use crate::message::CmdView;
use crate::worker::{
    awaits_outcome, begin, connected, consistent, entry_devices, first_entry, is_first_entry,
    is_request, log, run, scan_entries, scan_is_sound, worker_step, EffectView, InputView, Phase,
    ScanEntryView, WorkerView,
};
use vstd::prelude::*;

verus! {

/// Before an entry with an address there is a first one with it.
proof fn lemma_first_entry_before(scan: Seq<ScanEntryView>, addr: Seq<char>, k: int) -> (first: int)
    requires
        0 <= k < scan.len(),
        scan[k].info.addr == addr,
    ensures
        is_first_entry(scan, addr, first),
    decreases k,
{
    if exists|j: int| 0 <= j < k && scan[j].info.addr == addr {
        let j = choose|j: int| 0 <= j < k && scan[j].info.addr == addr;
        lemma_first_entry_before(scan, addr, j)
    } else {
        k
    }
}

/// What [`first_entry`] finds is the first entry with the address, and it
/// finds none only where there is none.
pub proof fn lemma_first_entry_found(scan: Seq<ScanEntryView>, addr: Seq<char>)
    ensures
        match first_entry(scan, addr) {
            Some(k) => is_first_entry(scan, addr, k),
            None => forall|j: int| 0 <= j < scan.len() ==> scan[j].info.addr != addr,
        },
{
    if exists|k: int| 0 <= k < scan.len() && scan[k].info.addr == addr {
        let k = choose|k: int| 0 <= k < scan.len() && scan[k].info.addr == addr;
        let first = lemma_first_entry_before(scan, addr, k);
        assert(is_first_entry(scan, addr, first));
    }
}

/// A connect to an address that the last scan does not hold is turned down:
/// the state stays as it is, no link is opened, and one log line is sent.
pub proof fn lemma_unknown_address_rejected(s: WorkerView, addr: Seq<char>)
    requires
        s.phase is Idle,
        forall|k: int| 0 <= k < s.last_scan.len() ==> s.last_scan[k].info.addr != addr,
    ensures
        worker_step(s, InputView::Command(CmdView::Connect { addr })) == (
            s,
            seq![log("That device wasn't in the last scan list."@)],
        ),
{
}

/// A mask for a worker without a connection is dropped: the state stays as it
/// is, nothing is written, and one log line is sent.
pub proof fn lemma_mask_without_connection_dropped(s: WorkerView, m: u8)
    requires
        s.phase is Idle,
        s.connection is None,
    ensures
        worker_step(s, InputView::Command(CmdView::SetMask(m))) == (
            s,
            seq![log("Not connected; ignoring LED write."@)],
        ),
{
}

/// A disconnect always ends with the message that no device is connected, and
/// leaves no connection.
pub proof fn lemma_disconnect_always_reports(s: WorkerView)
    requires
        s.phase is Idle,
    ensures
        ({
            let (next, effects) = worker_step(s, InputView::Command(CmdView::Disconnect));
            &&& next.connection is None
            &&& next.phase is Idle
            &&& effects.len() > 0
            &&& effects.last() == connected(false)
        }),
{
}

/// A worker that is busy with a command does not begin another one.
pub proof fn lemma_busy_worker_takes_no_command(s: WorkerView, command: CmdView)
    requires
        !(s.phase is Idle),
    ensures
        worker_step(s, InputView::Command(command)) == (s, Seq::<EffectView>::empty()),
{
}

/// A worker that has ended stays as it is and has no effect.
pub proof fn lemma_stopped_worker_is_silent(s: WorkerView, input: InputView)
    requires
        s.phase is Stopped,
    ensures
        worker_step(s, input) == (s, Seq::<EffectView>::empty()),
{
}

/// Of the effects of one step only the last can be a request, and it is one
/// exactly when the worker then waits for an outcome. A step without effects
/// leaves the state as it was.
pub proof fn lemma_request_comes_last(s: WorkerView, input: InputView)
    ensures
        ({
            let (next, effects) = worker_step(s, input);
            &&& forall|i: int| 0 <= i < effects.len() - 1 ==> !is_request(#[trigger] effects[i])
            &&& effects.len() > 0 ==> (is_request(effects.last()) <==> awaits_outcome(next.phase))
            &&& effects.len() == 0 ==> next == s
        }),
{
}

/// How many outcomes the worker waits for, at most, until it is through with
/// the command that it is busy with.
pub open spec fn outcomes_left(phase: Phase) -> nat {
    match phase {
        Phase::StartingScan => 3,
        Phase::Dwelling => 2,
        Phase::Listing => 1,
        Phase::OpeningLink => 2,
        Phase::Discovering => 1,
        Phase::Writing { .. } => 1,
        Phase::Booting => 1,
        Phase::Created | Phase::Idle | Phase::Stopped => 0,
    }
}

/// Whether `input` is an outcome of the request that the worker waits for in
/// `phase`: what the request yields, or its failure.
pub open spec fn answers(phase: Phase, input: InputView) -> bool {
    match (phase, input) {
        (Phase::Booting, InputView::AdapterReady) => true,
        (Phase::StartingScan, InputView::ScanStarted) => true,
        (Phase::Dwelling, InputView::DwellElapsed) => true,
        (Phase::Listing, InputView::Peripherals(_)) => true,
        (Phase::OpeningLink, InputView::LinkOpened) => true,
        (Phase::Discovering, InputView::Discovered(_)) => true,
        (Phase::Writing { .. }, InputView::Written) => true,
        (_, InputView::Failed(_)) => awaits_outcome(phase),
        _ => false,
    }
}

/// Every command comes to an end: a command leaves at most three outcomes to
/// wait for, and each outcome of the request that the worker waits for leaves
/// one less.
pub proof fn lemma_every_command_ends(s: WorkerView, input: InputView)
    ensures
        s.phase is Idle && input is Command ==> outcomes_left(worker_step(s, input).0.phase) <= 3,
        answers(s.phase, input) ==> outcomes_left(worker_step(s, input).0.phase) < outcomes_left(
            s.phase,
        ),
        awaits_outcome(s.phase) <==> outcomes_left(s.phase) > 0,
{
}

/// A step keeps the worker consistent.
pub proof fn lemma_step_keeps_consistent(s: WorkerView, input: InputView)
    requires
        consistent(s),
        input matches InputView::Peripherals(found) ==> found.len() <= usize::MAX,
    ensures
        consistent(worker_step(s, input).0),
{
    match (s.phase, input) {
        (Phase::Listing, InputView::Peripherals(found)) => {
            lemma_scan_entries_sound(found);
        },
        (Phase::Discovering, InputView::Discovered(found)) => {
            lemma_first_with_uuid_found(found, s.led_uuid);
        },
        _ => {},
    }
}

/// A link is only ever opened to a device of the last scan, and a byte only
/// ever written on a connection.
pub proof fn lemma_requests_have_their_object(s: WorkerView, input: InputView, i: int)
    requires
        consistent(s),
        0 <= i < worker_step(s, input).1.len(),
    ensures
        worker_step(s, input).1[i] matches EffectView::OpenLink { peripheral } ==> peripheral
            < s.last_scan.len(),
        worker_step(s, input).1[i] is Write ==> s.connection is Some && worker_step(
            s,
            input,
        ).0.connection == s.connection,
{
    match (s.phase, input) {
        (Phase::Idle, InputView::Command(CmdView::Connect { addr })) => {
            lemma_first_entry_found(s.last_scan, addr);
        },
        _ => {},
    }
}

/// The entries that a scan leaves are sound: each names a position of the
/// adapter's list, no two the same, and their devices are the listing of what
/// the adapter listed.
pub proof fn lemma_scan_entries_sound(found: Seq<DeviceInfoView>)
    requires
        found.len() <= usize::MAX,
    ensures
        scan_is_sound(scan_entries(found)),
        entry_devices(scan_entries(found)) == listing(found),
        forall|k: int|
            0 <= k < found.len() ==> (#[trigger] scan_entries(found)[k]).info
                == found[scan_entries(found)[k].peripheral as int],
{
    lemma_listing_order_exists(found);
    assert(entry_devices(scan_entries(found)) =~= listing(found));
}

/// Inputs are taken one after the other: what the worker has done after two
/// series of inputs is what it did after the first, followed by what it does
/// after the second from the state that the first left.
pub proof fn lemma_run_in_sequence(s: WorkerView, first: Seq<InputView>, second: Seq<InputView>)
    ensures
        run(s, first + second) == ({
            let (mid, before) = run(s, first);
            let (last, after) = run(mid, second);
            (last, before + after)
        }),
    decreases first.len(),
{
    if first.len() == 0 {
        assert(first + second =~= second);
        assert(Seq::<EffectView>::empty() + run(s, second).1 =~= run(s, second).1);
    } else {
        let (next, head) = worker_step(s, first[0]);
        assert((first + second).drop_first() =~= first.drop_first() + second);
        assert((first + second)[0] == first[0]);
        lemma_run_in_sequence(next, first.drop_first(), second);
        let (mid, before) = run(next, first.drop_first());
        let (last, after) = run(mid, second);
        assert(head + (before + after) =~= (head + before) + after);
    }
}

/// Commands are handled one at a time. Let a command and the outcomes of its
/// requests be followed by a second command. If the first command is through,
/// every effect of the second comes after every effect of the first, and the
/// second begins in the state that the first left. If the first is not
/// through, the second is not begun.
pub proof fn lemma_commands_one_at_a_time(
    s: WorkerView,
    command: CmdView,
    outcomes: Seq<InputView>,
    following: CmdView,
)
    requires
        s.phase is Idle,
    ensures
        ({
            let (mid, before) = run(s, seq![InputView::Command(command)] + outcomes);
            let all = run(
                s,
                seq![InputView::Command(command)] + outcomes + seq![InputView::Command(following)],
            );
            if mid.phase is Idle {
                all == (begin(mid, following).0, before + begin(mid, following).1)
            } else {
                all == (mid, before)
            }
        }),
{
    let first = seq![InputView::Command(command)] + outcomes;
    let second = seq![InputView::Command(following)];
    lemma_run_in_sequence(s, first, second);
    let (mid, before) = run(s, first);
    let (next, effects) = worker_step(mid, second[0]);
    assert(second.drop_first() =~= Seq::<InputView>::empty());
    assert(run(next, second.drop_first()) == (next, Seq::<EffectView>::empty()));
    assert(effects + Seq::<EffectView>::empty() =~= effects);
    assert(run(mid, second) == (next, effects));
    if !(mid.phase is Idle) {
        assert(before + Seq::<EffectView>::empty() =~= before);
    }
}

} // verus!
