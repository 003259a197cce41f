//! The reconciliation loop: one cycle after another over the pending
//! invoices, as a machine that is told what happened and answers what to do
//! next.
//!
//! The machine waits on nothing itself. Whoever drives it performs each
//! action (asks the oracle, runs the callback, sleeps) and reports the
//! outcome as the next event; `Poller::advance` performs the two actions on
//! the repository on the driver's behalf.

pub mod cycle;
pub mod laws;

use crate::common::DatabaseError;
use crate::db::{delete, get_all, typed_view};
use crate::types::amount::Amount;
use crate::types::invoice::{source_of, BalanceSource, BalanceSourceView, Invoice, InvoiceView};
use vstd::prelude::*;
use vstd::string::StringExecFns;

verus! {

/// Why the oracle gave no balance.
#[derive(Debug, Clone, Copy, PartialEq, Eq, Structural)]
pub enum OracleError {
    /// The oracle could not be reached.
    Transport,
    /// The call into the token contract failed.
    Contract,
}

/// What the machine is waiting for.
#[derive(Debug, Clone, Copy, PartialEq, Eq, Structural)]
pub enum Phase {
    /// The end of the pause between two cycles.
    Sleeping,
    /// The pending invoices.
    Reading,
    /// The balance of the current invoice's recipient.
    Querying,
    /// The removal of the current invoice, which was found settled.
    Deleting,
    /// The end of the callback on the current invoice, which was removed.
    Notifying,
}

/// A failure that the machine went on from, for the driver to log.
#[derive(Debug, Clone, Copy, PartialEq, Eq, Structural)]
pub enum Notice {
    /// The pending invoices could not be read; the cycle was skipped.
    SnapshotFailed(DatabaseError),
    /// The oracle gave no balance; the invoice stays pending.
    BalanceFailed(OracleError),
    /// A settled invoice could not be removed; the callback was withheld.
    DeleteFailed(DatabaseError),
}

/// What happened since the machine last answered.
#[derive(Debug, PartialEq, Eq)]
pub enum Event {
    /// The pause is over.
    Woke,
    /// The repository was read.
    Snapshot(Result<Vec<(String, Invoice)>, DatabaseError>),
    /// The oracle was asked.
    Balance(Result<Amount, OracleError>),
    /// The repository was asked to remove the current invoice.
    Deleted(Result<(), DatabaseError>),
    /// The callback has run to its end.
    Notified,
}

/// What is to be done next.
#[derive(Debug, PartialEq, Eq)]
pub enum Action {
    /// Read every pending invoice from the repository.
    ReadAll,
    /// Ask the oracle for the balance of `address` at `source`.
    Query { address: String, source: BalanceSource },
    /// Remove the entry under `key` from the repository.
    Delete { key: String },
    /// Run the callback on `invoice`, under the sink's lock.
    Notify { invoice: Invoice },
    /// Pause for `seconds`.
    Sleep { seconds: u64 },
}

/// Why the machine did not take an event.
#[derive(Debug, Clone, Copy, PartialEq, Eq, Structural)]
pub enum Rejected {
    /// The event is not the one that the machine is waiting for.
    OutOfTurn,
    /// The machine claims to be at an invoice that its snapshot lacks.
    Malformed,
}

/// The machine's answer to an event.
#[derive(Debug, PartialEq, Eq)]
pub struct Step {
    /// What is to be done next.
    pub action: Action,
    /// The failure that the machine went on from, if there was one.
    pub notice: Option<Notice>,
}

/// The state of the loop.
#[derive(Debug, PartialEq, Eq)]
pub struct Poller {
    /// What the machine is waiting for.
    pub phase: Phase,
    /// The invoices of the cycle under way, in the order in which the
    /// repository gave them; empty between cycles.
    pub snapshot: Vec<(String, Invoice)>,
    /// The place in `snapshot` of the current invoice; 0 between cycles.
    pub at: usize,
    /// The length of the pause between two cycles.
    pub poll_interval_seconds: u64,
}

/// An event with its texts as sequences of characters.
pub enum EventView {
    Woke,
    Snapshot(Result<Seq<(Seq<char>, InvoiceView)>, DatabaseError>),
    Balance(Result<Amount, OracleError>),
    Deleted(Result<(), DatabaseError>),
    Notified,
}

/// An action with its texts as sequences of characters.
pub enum ActionView {
    ReadAll,
    Query { address: Seq<char>, source: BalanceSourceView },
    Delete { key: Seq<char> },
    Notify { invoice: InvoiceView },
    Sleep { seconds: u64 },
}

/// The state of the loop with its texts as sequences of characters.
pub struct PollerView {
    pub phase: Phase,
    pub snapshot: Seq<(Seq<char>, InvoiceView)>,
    pub at: nat,
    pub poll_interval_seconds: u64,
}

/// One move of the machine: where it goes, what it asks for, and what the
/// driver should log.
pub struct Transition {
    pub state: PollerView,
    pub action: ActionView,
    pub notice: Option<Notice>,
}

impl View for Event {
    type V = EventView;

    open spec fn view(&self) -> EventView {
        match *self {
            Event::Woke => EventView::Woke,
            Event::Snapshot(Ok(all)) => EventView::Snapshot(Ok(typed_view(all))),
            Event::Snapshot(Err(e)) => EventView::Snapshot(Err(e)),
            Event::Balance(balance) => EventView::Balance(balance),
            Event::Deleted(outcome) => EventView::Deleted(outcome),
            Event::Notified => EventView::Notified,
        }
    }
}

impl View for Action {
    type V = ActionView;

    open spec fn view(&self) -> ActionView {
        match *self {
            Action::ReadAll => ActionView::ReadAll,
            Action::Query { address, source } => ActionView::Query {
                address: address@,
                source: source@,
            },
            Action::Delete { key } => ActionView::Delete { key: key@ },
            Action::Notify { invoice } => ActionView::Notify { invoice: invoice@ },
            Action::Sleep { seconds } => ActionView::Sleep { seconds },
        }
    }
}

impl View for Poller {
    type V = PollerView;

    open spec fn view(&self) -> PollerView {
        PollerView {
            phase: self.phase,
            snapshot: typed_view(self.snapshot),
            at: self.at as nat,
            poll_interval_seconds: self.poll_interval_seconds,
        }
    }
}

/// The settlement condition: the oracle gave a balance, and it is at least
/// the amount that is due.
pub open spec fn settled(balance: Result<Amount, OracleError>, amount: Amount) -> bool {
    balance matches Ok(held) && held@ >= amount@
}

impl PollerView {
    /// The state between two cycles.
    pub open spec fn asleep(poll_interval_seconds: u64) -> PollerView {
        PollerView {
            phase: Phase::Sleeping,
            snapshot: Seq::empty(),
            at: 0,
            poll_interval_seconds,
        }
    }

    /// Whether a cycle is under way at an invoice of the snapshot.
    pub open spec fn in_cycle(self) -> bool {
        self.phase == Phase::Querying || self.phase == Phase::Deleting || self.phase
            == Phase::Notifying
    }

    /// Whether the state is one that the machine can be in: while a cycle is
    /// under way, the current invoice is one of the snapshot.
    pub open spec fn well_formed(self) -> bool {
        self.in_cycle() ==> self.at < self.snapshot.len()
    }

    /// The key of the current invoice.
    pub open spec fn key(self) -> Seq<char> {
        self.snapshot[self.at as int].0
    }

    /// The current invoice.
    pub open spec fn invoice(self) -> InvoiceView {
        self.snapshot[self.at as int].1
    }

    /// The same state in another phase.
    pub open spec fn in_phase(self, phase: Phase) -> PollerView {
        PollerView { phase, ..self }
    }

    /// The move to the invoice at `at`: ask for its recipient's balance, or,
    /// past the last invoice, end the cycle and pause.
    pub open spec fn seek(self, at: nat, notice: Option<Notice>) -> Transition {
        if at < self.snapshot.len() {
            Transition {
                state: PollerView { phase: Phase::Querying, at, ..self },
                action: ActionView::Query {
                    address: self.snapshot[at as int].1.to,
                    source: source_of(self.snapshot[at as int].1.token_address),
                },
                notice,
            }
        } else {
            Transition {
                state: PollerView::asleep(self.poll_interval_seconds),
                action: ActionView::Sleep { seconds: self.poll_interval_seconds },
                notice,
            }
        }
    }

    /// Whether `event` is the one that a machine in `phase` is waiting for.
    pub open spec fn awaited(phase: Phase, event: EventView) -> bool {
        match (phase, event) {
            (Phase::Sleeping, EventView::Woke) => true,
            (Phase::Reading, EventView::Snapshot(_)) => true,
            (Phase::Querying, EventView::Balance(_)) => true,
            (Phase::Deleting, EventView::Deleted(_)) => true,
            (Phase::Notifying, EventView::Notified) => true,
            _ => false,
        }
    }

    /// The machine's move on `event`; `None` where the state is not well
    /// formed or the event is not the one it is waiting for.
    pub open spec fn next(self, event: EventView) -> Option<Transition> {
        if !self.well_formed() {
            None
        } else {
            match (self.phase, event) {
                (Phase::Sleeping, EventView::Woke) => Some(
                    Transition {
                        state: PollerView::asleep(self.poll_interval_seconds).in_phase(
                            Phase::Reading,
                        ),
                        action: ActionView::ReadAll,
                        notice: None,
                    },
                ),
                (Phase::Reading, EventView::Snapshot(Ok(all))) => Some(
                    PollerView { snapshot: all, ..self }.seek(0, None),
                ),
                (Phase::Reading, EventView::Snapshot(Err(e))) => Some(
                    Transition {
                        state: PollerView::asleep(self.poll_interval_seconds),
                        action: ActionView::Sleep { seconds: self.poll_interval_seconds },
                        notice: Some(Notice::SnapshotFailed(e)),
                    },
                ),
                (Phase::Querying, EventView::Balance(balance)) => Some(
                    if settled(balance, self.invoice().amount) {
                        Transition {
                            state: self.in_phase(Phase::Deleting),
                            action: ActionView::Delete { key: self.key() },
                            notice: None,
                        }
                    } else {
                        self.seek(
                            self.at + 1,
                            match balance {
                                Ok(_) => None,
                                Err(e) => Some(Notice::BalanceFailed(e)),
                            },
                        )
                    },
                ),
                (Phase::Deleting, EventView::Deleted(Ok(()))) => Some(
                    Transition {
                        state: self.in_phase(Phase::Notifying),
                        action: ActionView::Notify { invoice: self.invoice() },
                        notice: None,
                    },
                ),
                (Phase::Deleting, EventView::Deleted(Err(e))) => Some(
                    self.seek(self.at + 1, Some(Notice::DeleteFailed(e))),
                ),
                (Phase::Notifying, EventView::Notified) => Some(self.seek(self.at + 1, None)),
                _ => None,
            }
        }
    }

    /// Whether `event` reports the outcome of `action`, for the two actions
    /// on the repository.
    pub open spec fn answers(action: ActionView, event: EventView) -> bool {
        match action {
            ActionView::ReadAll => event is Snapshot,
            ActionView::Delete { .. } => event is Deleted,
            _ => false,
        }
    }

    /// Why the machine does not take an event that it does not take.
    pub open spec fn rejection(self) -> Rejected {
        if self.well_formed() {
            Rejected::OutOfTurn
        } else {
            Rejected::Malformed
        }
    }
}

impl OracleError {
    /// The text of the message that belongs to each error.
    pub open spec fn message_text(self) -> Seq<char> {
        match self {
            OracleError::Transport => "Could not reach the balance oracle"@,
            OracleError::Contract => "Could not call the token contract"@,
        }
    }

    /// The message for this error, as an owned string.
    pub fn message(&self) -> (text: String)
        ensures
            text@ == self.message_text(),
    {
        let text: &str = match self {
            OracleError::Transport => "Could not reach the balance oracle",
            OracleError::Contract => "Could not call the token contract",
        };
        text.to_owned()
    }
}

impl Notice {
    /// The line to log for each notice: what was given up, then why.
    pub open spec fn message_text(self) -> Seq<char> {
        match self {
            Notice::SnapshotFailed(e) => "Could not get all invoices, did not callback: "@
                + e.message_text(),
            Notice::BalanceFailed(e) => "Failed to check balance: "@ + e.message_text(),
            Notice::DeleteFailed(e) => "Could not remove paid invoice, did not callback: "@
                + e.message_text(),
        }
    }

    /// The line to log for this notice, as an owned string.
    pub fn message(&self) -> (text: String)
        ensures
            text@ == self.message_text(),
    {
        match self {
            Notice::SnapshotFailed(e) => {
                let reason = e.message();
                String::from_str("Could not get all invoices, did not callback: ").concat(
                    reason.as_str(),
                )
            },
            Notice::BalanceFailed(e) => {
                let reason = e.message();
                String::from_str("Failed to check balance: ").concat(reason.as_str())
            },
            Notice::DeleteFailed(e) => {
                let reason = e.message();
                String::from_str("Could not remove paid invoice, did not callback: ").concat(
                    reason.as_str(),
                )
            },
        }
    }
}

/// Whether `balance` settles an invoice over `amount`.
pub fn is_settled(balance: &Result<Amount, OracleError>, amount: &Amount) -> (out: bool)
    ensures
        out == settled(*balance, *amount),
{
    match balance {
        Ok(held) => held.ge(amount),
        Err(_) => false,
    }
}

impl Poller {
    /// The machine before its first cycle: asleep, to be woken at once.
    pub fn new(poll_interval_seconds: u64) -> (out: Poller)
        ensures
            out@ == PollerView::asleep(poll_interval_seconds),
    {
        let out = Poller {
            phase: Phase::Sleeping,
            snapshot: Vec::new(),
            at: 0,
            poll_interval_seconds,
        };
        assert(out@.snapshot =~= Seq::empty());
        out
    }

    /// Ends the cycle.
    fn rest(&mut self, notice: Option<Notice>) -> (out: Step)
        ensures
            final(self)@ == PollerView::asleep(old(self).poll_interval_seconds),
            out.action@ == (ActionView::Sleep { seconds: old(self).poll_interval_seconds }),
            out.notice == notice,
    {
        self.phase = Phase::Sleeping;
        self.snapshot = Vec::new();
        self.at = 0;
        assert(self@.snapshot =~= Seq::empty());
        Step { action: Action::Sleep { seconds: self.poll_interval_seconds }, notice }
    }

    /// Moves to the invoice at `at`.
    fn seek(&mut self, at: usize, notice: Option<Notice>) -> (out: Step)
        ensures
            old(self)@.seek(at as nat, notice) == (Transition {
                state: final(self)@,
                action: out.action@,
                notice: out.notice,
            }),
    {
        if at < self.snapshot.len() {
            let address = self.snapshot[at].1.to.clone();
            let source = self.snapshot[at].1.balance_source();
            self.phase = Phase::Querying;
            self.at = at;
            Step { action: Action::Query { address, source }, notice }
        } else {
            self.rest(notice)
        }
    }

    /// Takes `event` and answers what is to be done next.
    ///
    /// The event is refused, and the machine left as it is, where it is not
    /// the one that the machine is waiting for.
    pub fn step(&mut self, event: Event) -> (out: Result<Step, Rejected>)
        ensures
            match out {
                Ok(step) => old(self)@.next(event@) == Some(
                    Transition { state: final(self)@, action: step.action@, notice: step.notice },
                ),
                Err(e) => old(self)@.next(event@) is None && *final(self) == *old(self) && e
                    == old(self)@.rejection(),
            },
    {
        match self.phase {
            Phase::Sleeping => match event {
                Event::Woke => {
                    self.phase = Phase::Reading;
                    self.snapshot = Vec::new();
                    self.at = 0;
                    assert(self@.snapshot =~= Seq::empty());
                    Ok(Step { action: Action::ReadAll, notice: None })
                },
                _ => Err(Rejected::OutOfTurn),
            },
            Phase::Reading => match event {
                Event::Snapshot(Ok(all)) => {
                    self.snapshot = all;
                    Ok(self.seek(0, None))
                },
                Event::Snapshot(Err(e)) => Ok(self.rest(Some(Notice::SnapshotFailed(e)))),
                _ => Err(Rejected::OutOfTurn),
            },
            Phase::Querying => {
                if self.at >= self.snapshot.len() {
                    return Err(Rejected::Malformed);
                }
                match event {
                    Event::Balance(balance) => {
                        if is_settled(&balance, &self.snapshot[self.at].1.amount) {
                            let key = self.snapshot[self.at].0.clone();
                            self.phase = Phase::Deleting;
                            Ok(Step { action: Action::Delete { key }, notice: None })
                        } else {
                            let notice = match balance {
                                Ok(_) => None,
                                Err(e) => Some(Notice::BalanceFailed(e)),
                            };
                            Ok(self.seek(self.at + 1, notice))
                        }
                    },
                    _ => Err(Rejected::OutOfTurn),
                }
            },
            Phase::Deleting => {
                if self.at >= self.snapshot.len() {
                    return Err(Rejected::Malformed);
                }
                match event {
                    Event::Deleted(Ok(())) => {
                        let invoice = self.snapshot[self.at].1.clone();
                        self.phase = Phase::Notifying;
                        Ok(Step { action: Action::Notify { invoice }, notice: None })
                    },
                    Event::Deleted(Err(e)) => Ok(
                        self.seek(self.at + 1, Some(Notice::DeleteFailed(e))),
                    ),
                    _ => Err(Rejected::OutOfTurn),
                }
            },
            Phase::Notifying => {
                if self.at >= self.snapshot.len() {
                    return Err(Rejected::Malformed);
                }
                match event {
                    Event::Notified => Ok(self.seek(self.at + 1, None)),
                    _ => Err(Rejected::OutOfTurn),
                }
            },
        }
    }

    /// Takes `event` as `step` does and, where the answer is an action on
    /// the repository, performs it on `tree` and takes its outcome too.
    ///
    /// The action returned is one for the driver: to ask the oracle, to run
    /// the callback, or to pause. What the repository answers is the
    /// engine's to decide, so the contract says that the machine made the
    /// one or two moves that `next` gives for some such answer.
    pub fn advance(&mut self, tree: &sled::Tree, event: Event) -> (out: Result<Step, Rejected>)
        ensures
            match out {
                Ok(step) => {
                    let last = Transition {
                        state: final(self)@,
                        action: step.action@,
                        notice: step.notice,
                    };
                    &&& old(self)@.next(event@) matches Some(first)
                    &&& if first.action is ReadAll || first.action is Delete {
                        exists|answer: EventView|
                            PollerView::answers(first.action, answer) && #[trigger] first.state.next(
                                answer,
                            ) == Some(last)
                    } else {
                        first == last
                    }
                    &&& !(step.action@ is ReadAll)
                    &&& !(step.action@ is Delete)
                },
                Err(e) => old(self)@.next(event@) is None && *final(self) == *old(self) && e
                    == old(self)@.rejection(),
            },
    {
        let first = match self.step(event) {
            Ok(first) => first,
            Err(e) => { return Err(e); },
        };
        match &first.action {
            Action::ReadAll => {
                let answer = Event::Snapshot(get_all::<Invoice>(tree));
                self.step(answer)
            },
            Action::Delete { key } => {
                let answer = Event::Deleted(delete(tree, key.as_str()));
                self.step(answer)
            },
            _ => Ok(first),
        }
    }
}

} // verus!
