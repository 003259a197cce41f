//! One whole cycle of the reconciliation machine: what it asks for, from the
//! first invoice of a snapshot to the pause, given what the driver finds for
//! each invoice.

use super::{settled, ActionView, EventView, OracleError, Phase, PollerView};
use crate::common::DatabaseError;
use crate::types::amount::Amount;
use crate::types::invoice::{source_of, InvoiceView};
use vstd::prelude::*;

verus! {

/// What the driver finds for one invoice of a cycle: the oracle's answer
/// and, for the case that a removal is asked for, the repository's.
pub struct Finding {
    pub balance: Result<Amount, OracleError>,
    pub removal: Result<(), DatabaseError>,
}

/// The state in which the machine waits for the balance of the invoice at
/// `at`.
pub open spec fn querying(
    snapshot: Seq<(Seq<char>, InvoiceView)>,
    at: nat,
    poll_interval_seconds: u64,
) -> PollerView {
    PollerView { phase: Phase::Querying, snapshot, at, poll_interval_seconds }
}

/// The state that the machine is in after `events`, as far as it takes
/// them: the state after the last event before the first that it refuses.
pub open spec fn run_state(state: PollerView, events: Seq<EventView>) -> PollerView
    decreases events.len(),
{
    if events.len() == 0 {
        state
    } else {
        match state.next(events[0]) {
            Some(t) => run_state(t.state, events.drop_first()),
            None => state,
        }
    }
}

/// The actions that the machine answers to `events`, one for each event up
/// to the first that it refuses.
pub open spec fn run_actions(state: PollerView, events: Seq<EventView>) -> Seq<ActionView>
    decreases events.len(),
{
    if events.len() == 0 {
        Seq::empty()
    } else {
        match state.next(events[0]) {
            Some(t) => seq![t.action] + run_actions(t.state, events.drop_first()),
            None => Seq::empty(),
        }
    }
}

/// The events that a driver reports for one invoice: the balance; then,
/// where that settles the invoice, the outcome of the removal; then, where
/// the removal succeeded, the end of the callback.
pub open spec fn events_for(invoice: InvoiceView, finding: Finding) -> Seq<EventView> {
    if !settled(finding.balance, invoice.amount) {
        seq![EventView::Balance(finding.balance)]
    } else if finding.removal is Err {
        seq![EventView::Balance(finding.balance), EventView::Deleted(finding.removal)]
    } else {
        seq![
            EventView::Balance(finding.balance),
            EventView::Deleted(finding.removal),
            EventView::Notified,
        ]
    }
}

/// The events that a driver reports from the invoice at `from` to the end of
/// the snapshot.
pub open spec fn events_from(
    snapshot: Seq<(Seq<char>, InvoiceView)>,
    findings: Seq<Finding>,
    from: nat,
) -> Seq<EventView>
    decreases snapshot.len() - from,
{
    if from >= snapshot.len() {
        Seq::empty()
    } else {
        events_for(snapshot[from as int].1, findings[from as int]) + events_from(
            snapshot,
            findings,
            from + 1,
        )
    }
}

/// What follows the invoice at `at`: the question for the balance of the
/// next invoice, or the pause after the last.
pub open spec fn onward(
    snapshot: Seq<(Seq<char>, InvoiceView)>,
    at: nat,
    poll_interval_seconds: u64,
) -> ActionView {
    if at + 1 < snapshot.len() {
        ActionView::Query {
            address: snapshot[at as int + 1].1.to,
            source: source_of(snapshot[at as int + 1].1.token_address),
        }
    } else {
        ActionView::Sleep { seconds: poll_interval_seconds }
    }
}

/// What is due for the invoice at `at`: nothing where it is not settled;
/// its removal where it is; and the callback, once, where the removal
/// succeeded. Then the machine goes onward.
pub open spec fn actions_for(
    snapshot: Seq<(Seq<char>, InvoiceView)>,
    finding: Finding,
    at: nat,
    poll_interval_seconds: u64,
) -> Seq<ActionView> {
    let entry = snapshot[at as int];
    let then = onward(snapshot, at, poll_interval_seconds);
    if !settled(finding.balance, entry.1.amount) {
        seq![then]
    } else if finding.removal is Err {
        seq![ActionView::Delete { key: entry.0 }, then]
    } else {
        seq![ActionView::Delete { key: entry.0 }, ActionView::Notify { invoice: entry.1 }, then]
    }
}

/// What is due from the invoice at `from` to the end of the snapshot.
pub open spec fn actions_from(
    snapshot: Seq<(Seq<char>, InvoiceView)>,
    findings: Seq<Finding>,
    from: nat,
    poll_interval_seconds: u64,
) -> Seq<ActionView>
    decreases snapshot.len() - from,
{
    if from >= snapshot.len() {
        Seq::empty()
    } else {
        actions_for(snapshot, findings[from as int], from, poll_interval_seconds) + actions_from(
            snapshot,
            findings,
            from + 1,
            poll_interval_seconds,
        )
    }
}

/// A run over two series of events, the first of them taken in full, is the
/// run over the first followed by the run over the second from where the
/// first ended.
pub proof fn lemma_run_in_two(state: PollerView, first: Seq<EventView>, second: Seq<EventView>)
    requires
        run_actions(state, first).len() == first.len(),
    ensures
        run_actions(state, first + second) == run_actions(state, first) + run_actions(
            run_state(state, first),
            second,
        ),
        run_state(state, first + second) == run_state(run_state(state, first), second),
    decreases first.len(),
{
    if first.len() == 0 {
        assert(first + second =~= second);
        assert(run_actions(state, first) + run_actions(state, second) =~= run_actions(
            state,
            second,
        ));
    } else {
        let all = first + second;
        assert(all[0] == first[0]);
        assert(all.drop_first() =~= first.drop_first() + second);
        let t = state.next(first[0])->0;
        lemma_run_in_two(t.state, first.drop_first(), second);
        assert(run_actions(state, all) =~= run_actions(state, first) + run_actions(
            run_state(state, first),
            second,
        ));
    }
}

/// For one invoice the machine takes every event that the driver reports,
/// asks for what is due, and ends up at the next invoice or, after the
/// last, asleep.
pub proof fn lemma_one_invoice(
    snapshot: Seq<(Seq<char>, InvoiceView)>,
    finding: Finding,
    at: nat,
    poll_interval_seconds: u64,
)
    requires
        at < snapshot.len(),
    ensures
        ({
            let state = querying(snapshot, at, poll_interval_seconds);
            let events = events_for(snapshot[at as int].1, finding);
            &&& run_actions(state, events) == actions_for(
                snapshot,
                finding,
                at,
                poll_interval_seconds,
            )
            &&& run_actions(state, events).len() == events.len()
            &&& run_state(state, events) == (if at + 1 < snapshot.len() {
                querying(snapshot, at + 1, poll_interval_seconds)
            } else {
                PollerView::asleep(poll_interval_seconds)
            })
        }),
{
    let state = querying(snapshot, at, poll_interval_seconds);
    let events = events_for(snapshot[at as int].1, finding);
    let wanted = actions_for(snapshot, finding, at, poll_interval_seconds);
    let none = Seq::<EventView>::empty();
    let t0 = state.next(events[0])->0;
    if !settled(finding.balance, snapshot[at as int].1.amount) {
        assert(events.drop_first() =~= none);
        assert(run_actions(t0.state, none) =~= Seq::<ActionView>::empty());
        assert(run_state(t0.state, none) == t0.state);
        assert(run_actions(state, events) =~= wanted);
    } else {
        let t1 = t0.state.next(events[1])->0;
        let after_balance = events.drop_first();
        assert(after_balance[0] == events[1]);
        if finding.removal is Err {
            assert(after_balance.drop_first() =~= none);
            assert(run_actions(t1.state, none) =~= Seq::<ActionView>::empty());
            assert(run_state(t1.state, none) == t1.state);
            assert(run_actions(t0.state, after_balance) =~= seq![t1.action]);
            assert(run_state(t0.state, after_balance) == t1.state);
            assert(run_actions(state, events) =~= wanted);
        } else {
            let t2 = t1.state.next(events[2])->0;
            let after_removal = after_balance.drop_first();
            assert(after_removal[0] == events[2]);
            assert(after_removal.drop_first() =~= none);
            assert(run_actions(t2.state, none) =~= Seq::<ActionView>::empty());
            assert(run_state(t2.state, none) == t2.state);
            assert(run_actions(t1.state, after_removal) =~= seq![t2.action]);
            assert(run_state(t1.state, after_removal) == t2.state);
            assert(run_actions(t0.state, after_balance) =~= seq![t1.action, t2.action]);
            assert(run_state(t0.state, after_balance) == t2.state);
            assert(run_actions(state, events) =~= wanted);
        }
    }
}

/// Over a whole cycle the machine takes every event that the driver
/// reports and asks for exactly what is due, in the order of the snapshot:
/// for each invoice that is settled its removal, for each that was then
/// removed the callback, once, and for the others nothing; after the last
/// invoice it is asleep.
pub proof fn lemma_cycle(
    snapshot: Seq<(Seq<char>, InvoiceView)>,
    findings: Seq<Finding>,
    from: nat,
    poll_interval_seconds: u64,
)
    requires
        findings.len() == snapshot.len(),
        from < snapshot.len(),
    ensures
        ({
            let state = querying(snapshot, from, poll_interval_seconds);
            let events = events_from(snapshot, findings, from);
            &&& run_actions(state, events) == actions_from(
                snapshot,
                findings,
                from,
                poll_interval_seconds,
            )
            &&& run_actions(state, events).len() == events.len()
            &&& run_state(state, events) == PollerView::asleep(poll_interval_seconds)
        }),
    decreases snapshot.len() - from,
{
    let state = querying(snapshot, from, poll_interval_seconds);
    let first = events_for(snapshot[from as int].1, findings[from as int]);
    let rest = events_from(snapshot, findings, from + 1);
    lemma_one_invoice(snapshot, findings[from as int], from, poll_interval_seconds);
    lemma_run_in_two(state, first, rest);
    if from + 1 < snapshot.len() {
        lemma_cycle(snapshot, findings, from + 1, poll_interval_seconds);
    } else {
        assert(rest =~= Seq::<EventView>::empty());
        assert(actions_from(snapshot, findings, from + 1, poll_interval_seconds)
            =~= Seq::<ActionView>::empty());
    }
}

/// From one pause to the next: woken, the machine reads the repository,
/// asks about the first invoice of the snapshot that it is given, goes
/// through the cycle as `lemma_cycle` says, and is asleep again as it was
/// before, so that the next cycle starts as this one did. An empty snapshot
/// leads straight to the pause.
pub proof fn lemma_from_pause_to_pause(
    snapshot: Seq<(Seq<char>, InvoiceView)>,
    findings: Seq<Finding>,
    poll_interval_seconds: u64,
)
    requires
        findings.len() == snapshot.len(),
    ensures
        ({
            let asleep = PollerView::asleep(poll_interval_seconds);
            let start = seq![EventView::Woke, EventView::Snapshot(Ok(snapshot))];
            let events = start + events_from(snapshot, findings, 0);
            let first = if snapshot.len() > 0 {
                ActionView::Query {
                    address: snapshot[0].1.to,
                    source: source_of(snapshot[0].1.token_address),
                }
            } else {
                ActionView::Sleep { seconds: poll_interval_seconds }
            };
            &&& run_actions(asleep, events) == seq![ActionView::ReadAll, first] + actions_from(
                snapshot,
                findings,
                0,
                poll_interval_seconds,
            )
            &&& run_actions(asleep, events).len() == events.len()
            &&& run_state(asleep, events) == asleep
        }),
{
    let asleep = PollerView::asleep(poll_interval_seconds);
    let start = seq![EventView::Woke, EventView::Snapshot(Ok(snapshot))];
    let none = Seq::<EventView>::empty();
    let t0 = asleep.next(start[0])->0;
    let t1 = t0.state.next(start[1])->0;
    let after_wake = start.drop_first();
    assert(after_wake[0] == start[1]);
    assert(after_wake.drop_first() =~= none);
    assert(run_actions(t1.state, none) =~= Seq::<ActionView>::empty());
    assert(run_state(t1.state, none) == t1.state);
    assert(run_actions(t0.state, after_wake) =~= seq![t1.action]);
    assert(run_state(t0.state, after_wake) == t1.state);
    assert(run_actions(asleep, start) =~= seq![t0.action, t1.action]);
    assert(run_state(asleep, start) == t1.state);
    let rest = events_from(snapshot, findings, 0);
    lemma_run_in_two(asleep, start, rest);
    if snapshot.len() > 0 {
        assert(t1.state == querying(snapshot, 0, poll_interval_seconds));
        lemma_cycle(snapshot, findings, 0, poll_interval_seconds);
    } else {
        assert(rest =~= none);
        assert(actions_from(snapshot, findings, 0, poll_interval_seconds)
            =~= Seq::<ActionView>::empty());
        assert(run_actions(t1.state, rest) =~= Seq::<ActionView>::empty());
    }
}

} // verus!
