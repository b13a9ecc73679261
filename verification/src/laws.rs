//! Laws of whole runs of the monitor.
//!
//! [`crate::monitor::MonitorState::tick`] pins down a single tick. The
//! functions here fold [`crate::monitor::spec_next`] over a sequence of tick
//! events and prove what holds of every run: how often each notification
//! fires over a run of readings, and that failed readings are transparent to
//! the whole run.

use vstd::prelude::*;

verus! {

use crate::monitor::{
    spec_next, spec_tick_fires_low, spec_tick_fires_state_change, MonitorState,
};
use crate::snapshot::{spec_is_low, BatterySnapshot, ChargingState, TickEvent};

/// The monitor state after a run of tick events.
pub open spec fn spec_run(st: MonitorState, evs: Seq<TickEvent>) -> MonitorState
    decreases evs.len(),
{
    if evs.len() == 0 {
        st
    } else {
        spec_run(spec_next(st, evs[0]), evs.drop_first())
    }
}

/// How many state-change notifications a run of tick events emits.
pub open spec fn count_state_change_notifs(st: MonitorState, evs: Seq<TickEvent>) -> nat
    decreases evs.len(),
{
    if evs.len() == 0 {
        0
    } else {
        (if spec_tick_fires_state_change(st, evs[0]) {
            1nat
        } else {
            0nat
        }) + count_state_change_notifs(spec_next(st, evs[0]), evs.drop_first())
    }
}

/// How many low-charge notifications a run of tick events emits.
pub open spec fn count_low_notifs(st: MonitorState, evs: Seq<TickEvent>) -> nat
    decreases evs.len(),
{
    if evs.len() == 0 {
        0
    } else {
        (if spec_tick_fires_low(st, evs[0]) {
            1nat
        } else {
            0nat
        }) + count_low_notifs(spec_next(st, evs[0]), evs.drop_first())
    }
}

/// The events of a run in which every reading succeeds.
pub open spec fn reads_of(snaps: Seq<BatterySnapshot>) -> Seq<TickEvent> {
    snaps.map_values(|s: BatterySnapshot| TickEvent::Read(s))
}

/// How many adjacent pairs of a run of readings differ in charging state,
/// with the stored state `prev` opening the first pair.
pub open spec fn count_adjacent_state_changes(prev: ChargingState, snaps: Seq<BatterySnapshot>) -> nat
    decreases snaps.len(),
{
    if snaps.len() == 0 {
        0
    } else {
        (if snaps[0].state != prev {
            1nat
        } else {
            0nat
        }) + count_adjacent_state_changes(snaps[0].state, snaps.drop_first())
    }
}

/// Law: over any run of successful readings, a state-change notification
/// fires exactly once per adjacent pair whose charging state differs, and
/// never for a pair whose charging state is equal.
pub proof fn lemma_state_change_once_per_changed_pair(st: MonitorState, snaps: Seq<BatterySnapshot>)
    ensures
        count_state_change_notifs(st, reads_of(snaps)) == count_adjacent_state_changes(
            st.last.state,
            snaps,
        ),
    decreases snaps.len(),
{
    if snaps.len() > 0 {
        let evs = reads_of(snaps);
        assert(evs[0] == TickEvent::Read(snaps[0]));
        assert(evs.drop_first() =~= reads_of(snaps.drop_first()));
        lemma_state_change_once_per_changed_pair(spec_next(st, evs[0]), snaps.drop_first());
    }
}

/// While the hysteresis flag is set and every reading stays at or below the
/// critical threshold, no low-charge notification fires.
pub proof fn lemma_low_suppressed_while_notified(st: MonitorState, snaps: Seq<BatterySnapshot>)
    requires
        st.low_notified,
        forall|i: int| 0 <= i < snaps.len() ==> spec_is_low(snaps[i].charge_permille),
    ensures
        count_low_notifs(st, reads_of(snaps)) == 0,
    decreases snaps.len(),
{
    if snaps.len() > 0 {
        let evs = reads_of(snaps);
        assert(evs[0] == TickEvent::Read(snaps[0]));
        assert(spec_is_low(snaps[0].charge_permille));
        assert(evs.drop_first() =~= reads_of(snaps.drop_first()));
        assert forall|i: int|
            0 <= i < snaps.drop_first().len() implies spec_is_low(
            snaps.drop_first()[i].charge_permille,
        ) by {
            assert(snaps.drop_first()[i] == snaps[i + 1]);
        }
        lemma_low_suppressed_while_notified(spec_next(st, evs[0]), snaps.drop_first());
    }
}

/// Law: if the charge stays at or below the critical threshold across N
/// consecutive successful readings and the alert is armed when the run
/// starts, exactly one low-charge notification fires across all N ticks.
pub proof fn lemma_low_fires_once_while_low(st: MonitorState, snaps: Seq<BatterySnapshot>)
    requires
        !st.low_notified,
        snaps.len() >= 1,
        forall|i: int| 0 <= i < snaps.len() ==> spec_is_low(snaps[i].charge_permille),
    ensures
        count_low_notifs(st, reads_of(snaps)) == 1,
{
    let evs = reads_of(snaps);
    assert(evs[0] == TickEvent::Read(snaps[0]));
    assert(spec_is_low(snaps[0].charge_permille));
    assert(spec_tick_fires_low(st, evs[0]));
    assert(evs.drop_first() =~= reads_of(snaps.drop_first()));
    assert forall|i: int|
        0 <= i < snaps.drop_first().len() implies spec_is_low(
        snaps.drop_first()[i].charge_permille,
    ) by {
        assert(snaps.drop_first()[i] == snaps[i + 1]);
    }
    lemma_low_suppressed_while_notified(spec_next(st, evs[0]), snaps.drop_first());
}

/// Appending one event to a run steps the resulting state once.
proof fn lemma_run_snoc(st: MonitorState, evs: Seq<TickEvent>, ev: TickEvent)
    ensures
        spec_run(st, evs.push(ev)) == spec_next(spec_run(st, evs), ev),
    decreases evs.len(),
{
    if evs.len() == 0 {
        assert(evs.push(ev)[0] == ev);
        assert(evs.push(ev).drop_first() =~= Seq::<TickEvent>::empty());
        assert(spec_run(st, evs.push(ev)) == spec_run(
            spec_next(st, ev),
            Seq::<TickEvent>::empty(),
        ));
        assert(spec_run(st, evs) == st);
    } else {
        assert(evs.push(ev)[0] == evs[0]);
        assert(evs.push(ev).drop_first() =~= evs.drop_first().push(ev));
        assert(spec_run(st, evs.push(ev)) == spec_run(
            spec_next(st, evs[0]),
            evs.drop_first().push(ev),
        ));
        assert(spec_run(st, evs) == spec_run(spec_next(st, evs[0]), evs.drop_first()));
        lemma_run_snoc(spec_next(st, evs[0]), evs.drop_first(), ev);
    }
}

/// After `i` successful readings the monitor stores the `i`-th reading, and
/// the hysteresis flag is set exactly when that reading's charge is at or
/// below the critical threshold.
proof fn lemma_run_reads_state(st: MonitorState, snaps: Seq<BatterySnapshot>, i: int)
    requires
        1 <= i <= snaps.len(),
    ensures
        spec_run(st, reads_of(snaps).take(i)) == (MonitorState {
            last: snaps[i - 1],
            low_notified: spec_is_low(snaps[i - 1].charge_permille),
        }),
    decreases i,
{
    let evs = reads_of(snaps);
    assert(evs.take(i) =~= evs.take(i - 1).push(evs[i - 1]));
    lemma_run_snoc(st, evs.take(i - 1), evs[i - 1]);
    if i == 1 {
        assert(evs.take(0) =~= Seq::<TickEvent>::empty());
    } else {
        lemma_run_reads_state(st, snaps, i - 1);
    }
    assert(evs[i - 1] == TickEvent::Read(snaps[i - 1]));
}

/// Law: in a run of successful readings, the low-charge notification fires
/// at tick `i` exactly when that reading's charge is at or below the
/// critical threshold and the alert is armed: at the first tick because the
/// stored flag is clear, at any later tick because the previous reading was
/// above the threshold. So after one firing the alert stays silent until a
/// reading above the threshold re-arms it, and a second crossing fires it
/// again.
pub proof fn lemma_low_fire_characterization(st: MonitorState, snaps: Seq<BatterySnapshot>, i: int)
    requires
        0 <= i < snaps.len(),
    ensures
        spec_tick_fires_low(spec_run(st, reads_of(snaps).take(i)), reads_of(snaps)[i]) <==> (
        spec_is_low(snaps[i].charge_permille) && (if i == 0 {
            !st.low_notified
        } else {
            !spec_is_low(snaps[i - 1].charge_permille)
        })),
{
    let evs = reads_of(snaps);
    assert(evs[i] == TickEvent::Read(snaps[i]));
    if i == 0 {
        assert(evs.take(0) =~= Seq::<TickEvent>::empty());
    } else {
        lemma_run_reads_state(st, snaps, i);
    }
}

/// Law: a failed reading is transparent. Inserting it anywhere in a run
/// changes neither the final state nor how many notifications of either
/// kind the run emits, so the comparison basis for the next successful tick
/// stays the last successful reading.
pub proof fn lemma_failed_read_transparent(
    st: MonitorState,
    before: Seq<TickEvent>,
    after: Seq<TickEvent>,
)
    ensures
        spec_run(st, before + seq![TickEvent::ReadFailed] + after) == spec_run(st, before + after),
        count_state_change_notifs(st, before + seq![TickEvent::ReadFailed] + after)
            == count_state_change_notifs(st, before + after),
        count_low_notifs(st, before + seq![TickEvent::ReadFailed] + after) == count_low_notifs(
            st,
            before + after,
        ),
    decreases before.len(),
{
    let fail = seq![TickEvent::ReadFailed];
    if before.len() == 0 {
        assert(before + fail + after =~= fail + after);
        assert(before + after =~= after);
        assert((fail + after)[0] == TickEvent::ReadFailed);
        assert((fail + after).drop_first() =~= after);
    } else {
        let b0 = before[0];
        assert((before + fail + after)[0] == b0);
        assert((before + after)[0] == b0);
        assert((before + fail + after).drop_first() =~= before.drop_first() + fail + after);
        assert((before + after).drop_first() =~= before.drop_first() + after);
        lemma_failed_read_transparent(spec_next(st, b0), before.drop_first(), after);
    }
}

} // verus!
