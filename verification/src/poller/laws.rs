//! What holds of every move and of every run of the reconciliation machine.

use super::{settled, ActionView, EventView, Phase, PollerView};
use crate::types::invoice::{source_of, InvoiceView};
use vstd::prelude::*;

verus! {

/// Whether `states` are the states that the machine goes through as it takes
/// `events` one after the other, none of them refused.
pub open spec fn is_run(states: Seq<PollerView>, events: Seq<EventView>) -> bool {
    &&& states.len() == events.len() + 1
    &&& forall|k: int|
        0 <= k < events.len() ==> (#[trigger] states[k].next(events[k])) is Some
            && states[k].next(events[k])->0.state == states[k + 1]
}

/// The action that the machine answers to the event at `k` of a run.
pub open spec fn action_at(states: Seq<PollerView>, events: Seq<EventView>, k: int) -> ActionView {
    states[k].next(events[k])->0.action
}

/// Whether no two entries of a snapshot have the same key.
pub open spec fn keys_distinct(snapshot: Seq<(Seq<char>, InvoiceView)>) -> bool {
    forall|m: int, n: int| 0 <= m < n < snapshot.len() ==> snapshot[m].0 != snapshot[n].0
}

/// Whether `state` is asleep, or in a cycle over `snapshot` at an invoice
/// after the one at `at`.
pub open spec fn moved_past(
    state: PollerView,
    snapshot: Seq<(Seq<char>, InvoiceView)>,
    at: nat,
) -> bool {
    ||| state.phase == Phase::Sleeping
    ||| state.in_cycle() && state.snapshot == snapshot && state.at > at
}

/// The machine takes an event exactly where its state is well formed and the
/// event is the one that it is waiting for. So while the callback runs it
/// takes nothing but the report that the callback has ended.
pub proof fn lemma_takes_what_it_waits_for(state: PollerView, event: EventView)
    ensures
        state.next(event) is Some <==> state.well_formed() && PollerView::awaited(
            state.phase,
            event,
        ),
        state.next(event) is Some ==> state.next(event)->0.state.well_formed(),
{
}

/// The callback is asked for in exactly one situation: the machine was
/// waiting for the removal of the current invoice, and the removal
/// succeeded. The invoice handed to the callback is that invoice.
pub proof fn lemma_callback_iff_removed(state: PollerView, event: EventView)
    requires
        state.well_formed(),
    ensures
        (state.next(event) is Some && state.next(event)->0.action is Notify) <==> (state.phase
            == Phase::Deleting && event is Deleted && event->Deleted_0 is Ok),
        state.phase == Phase::Deleting && event is Deleted && event->Deleted_0 is Ok
            ==> state.next(event)->0.action == (ActionView::Notify { invoice: state.invoice() })
            && state.next(event)->0.state == state.in_phase(Phase::Notifying),
{
}

/// A removal is asked for in exactly one situation: the machine was waiting
/// for a balance, the oracle gave one, and it is at least the amount of the
/// current invoice. The key to remove is that invoice's key.
pub proof fn lemma_removal_iff_settled(state: PollerView, event: EventView)
    requires
        state.well_formed(),
    ensures
        (state.next(event) is Some && state.next(event)->0.action is Delete) <==> (state.phase
            == Phase::Querying && event is Balance && settled(
            event->Balance_0,
            state.invoice().amount,
        )),
        state.next(event) is Some && state.next(event)->0.action is Delete ==> state.next(
            event,
        )->0.action == (ActionView::Delete { key: state.key() }) && state.next(event)->0.state
            == state.in_phase(Phase::Deleting),
{
}

/// The machine comes to wait for a removal only by asking for it.
pub proof fn lemma_deleting_iff_asked(state: PollerView, event: EventView)
    ensures
        state.next(event) is Some ==> (state.next(event)->0.state.phase == Phase::Deleting
            <==> state.next(event)->0.action is Delete),
{
}

/// An invoice that is not settled is passed over: the machine neither asks
/// for its removal nor for the callback, and moves to the next invoice or,
/// after the last, ends the cycle. This holds alike where the balance is too
/// low and where the oracle failed.
pub proof fn lemma_unsettled_passed_over(state: PollerView, event: EventView)
    requires
        state.well_formed(),
        state.phase == Phase::Querying,
        event is Balance,
        !settled(event->Balance_0, state.invoice().amount),
    ensures
        state.next(event) is Some,
        state.next(event)->0.action is Query || state.next(event)->0.action is Sleep,
        moved_past(state.next(event)->0.state, state.snapshot, state.at),
{
}

/// A removal that failed is not followed by the callback: the machine moves
/// to the next invoice or, after the last, ends the cycle.
pub proof fn lemma_failed_removal_withholds_callback(state: PollerView, event: EventView)
    requires
        state.well_formed(),
        state.phase == Phase::Deleting,
        event is Deleted,
        event->Deleted_0 is Err,
    ensures
        state.next(event) is Some,
        state.next(event)->0.action is Query || state.next(event)->0.action is Sleep,
        moved_past(state.next(event)->0.state, state.snapshot, state.at),
{
}

/// A read of the repository that failed ends the cycle before any invoice
/// is looked at: the machine pauses, and the next cycle starts as every
/// cycle does.
pub proof fn lemma_failed_read_skips_cycle(state: PollerView, event: EventView)
    requires
        state.phase == Phase::Reading,
        event is Snapshot,
        event->Snapshot_0 is Err,
    ensures
        state.next(event) is Some,
        state.next(event)->0.action == (ActionView::Sleep {
            seconds: state.poll_interval_seconds,
        }),
        state.next(event)->0.state == PollerView::asleep(state.poll_interval_seconds),
{
}

/// The invoices of a cycle are taken in the order in which the repository
/// gave them: a cycle starts at the first, and each move that leaves an
/// invoice goes to the one after it.
pub proof fn lemma_order_of_snapshot(state: PollerView, event: EventView)
    requires
        state.next(event) is Some,
    ensures
        ({
            let t = state.next(event)->0;
            &&& state.phase == Phase::Reading && t.state.in_cycle() ==> event
                == EventView::Snapshot(Ok(t.state.snapshot)) && t.state.at == 0
            &&& state.in_cycle() && t.state.in_cycle() ==> t.state.snapshot == state.snapshot && (
            t.state.at == state.at || t.state.at == state.at + 1)
            &&& t.action is Query ==> t.state.phase == Phase::Querying && t.action == (
            ActionView::Query {
                address: t.state.invoice().to,
                source: source_of(t.state.invoice().token_address),
            })
        }),
{
}

/// In a run that starts asleep, as every machine starts, each callback
/// comes strictly after the removal of its invoice was asked for and
/// succeeded, and that removal was asked for because the oracle had
/// reported a balance of at least the invoice's amount.
pub proof fn lemma_callback_follows_settlement_and_removal(
    states: Seq<PollerView>,
    events: Seq<EventView>,
    k: int,
)
    requires
        is_run(states, events),
        states[0].phase == Phase::Sleeping,
        0 <= k < events.len(),
        action_at(states, events, k) is Notify,
    ensures
        k >= 1,
        events[k] is Deleted,
        events[k]->Deleted_0 is Ok,
        events[k - 1] is Balance,
        settled(events[k - 1]->Balance_0, states[k].invoice().amount),
        action_at(states, events, k - 1) == (ActionView::Delete { key: states[k].key() }),
        action_at(states, events, k) == (ActionView::Notify { invoice: states[k].invoice() }),
        states[k - 1].snapshot == states[k].snapshot,
        states[k - 1].at == states[k].at,
{
    assert(states[k].next(events[k]) is Some);
    lemma_callback_iff_removed(states[k], events[k]);
    assert(states[k - 1].next(events[k - 1]) is Some);
    lemma_deleting_iff_asked(states[k - 1], events[k - 1]);
    lemma_removal_iff_settled(states[k - 1], events[k - 1]);
}

/// Within one cycle, once the callback was asked for at one invoice, the
/// machine is from then on at a later invoice of the same snapshot, or
/// asleep.
pub proof fn lemma_cycle_moves_on(
    states: Seq<PollerView>,
    events: Seq<EventView>,
    i: int,
    j: int,
)
    requires
        is_run(states, events),
        0 <= i < j < events.len(),
        action_at(states, events, i) is Notify,
        forall|k: int| i < k <= j ==> !(#[trigger] action_at(states, events, k) is ReadAll),
    ensures
        moved_past(states[j + 1], states[i + 1].snapshot, states[i + 1].at),
    decreases j - i,
{
    assert(states[i].next(events[i]) is Some);
    assert(states[j].next(events[j]) is Some);
    lemma_callback_iff_removed(states[i], events[i]);
    if j == i + 1 {
    } else {
        lemma_cycle_moves_on(states, events, i, j - 1);
        assert(!(action_at(states, events, j) is ReadAll));
    }
}

/// Within one cycle the callback is asked for at most once for each entry
/// of the snapshot: of two callbacks, the later is for a later entry. Where
/// no two entries have the same key, as in what a repository holds, the two
/// callbacks are for invoices under different keys.
pub proof fn lemma_one_callback_per_entry(
    states: Seq<PollerView>,
    events: Seq<EventView>,
    i: int,
    j: int,
)
    requires
        is_run(states, events),
        0 <= i < j < events.len(),
        action_at(states, events, i) is Notify,
        action_at(states, events, j) is Notify,
        forall|k: int| i < k <= j ==> !(#[trigger] action_at(states, events, k) is ReadAll),
    ensures
        states[j].snapshot == states[i].snapshot,
        states[i].at < states[j].at < states[i].snapshot.len(),
        action_at(states, events, i) == (ActionView::Notify {
            invoice: states[i].snapshot[states[i].at as int].1,
        }),
        action_at(states, events, j) == (ActionView::Notify {
            invoice: states[i].snapshot[states[j].at as int].1,
        }),
        keys_distinct(states[i].snapshot) ==> states[i].key() != states[j].key(),
{
    assert(states[i].next(events[i]) is Some);
    assert(states[j].next(events[j]) is Some);
    lemma_callback_iff_removed(states[i], events[i]);
    lemma_callback_iff_removed(states[j], events[j]);
    lemma_cycle_moves_on(states, events, i, j);
}

} // verus!
