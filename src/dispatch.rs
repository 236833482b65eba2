//! The reactive loop: one bound transfer, attempted once per block-metadata
//! event of a subscription, strictly one attempt at a time.
use crate::error::PipelineError;
use crate::transfer::{BlockReference, SubmitStep, Transfer};
use vstd::prelude::*;

verus! {

/// A newly finalized block, as the event feed reports it.
#[derive(Clone, Debug, PartialEq, Eq)]
pub struct ChainEvent {
    pub block_hash: String,
    pub slot: u64,
}

/// One item of the subscription's sequence.
#[derive(Clone, Debug, PartialEq, Eq)]
pub enum FeedItem {
    /// A block-metadata event.
    Block(ChainEvent),
    /// An update of another kind, which the loop does not act on.
    Other,
    /// The remote side closed the subscription.
    Closed,
    /// The subscription failed with a transport error.
    Failed,
}

/// Why the loop stopped.
#[derive(Clone, Copy, Debug, PartialEq, Eq, Structural)]
pub enum ExitReason {
    RemoteClosed,
    TransportError,
}

/// Where the loop stands.
#[derive(Clone, Copy, Debug, PartialEq, Eq, Structural)]
pub enum Phase {
    /// Waiting for the next item of the subscription.
    Awaiting,
    /// The submission for the block at this slot is in flight.
    Submitting(u64),
    /// The loop is over; the subscription is released.
    Exited(ExitReason),
}

/// What the caller does next.
#[derive(Clone, Copy, Debug, PartialEq, Eq, Structural)]
pub enum Action {
    /// Record the block at this slot and submit the bound transfer once.
    Submit(u64),
    /// Wait for the next item of the subscription.
    AwaitNext,
    /// Stop and release the subscription.
    Exit(ExitReason),
}

/// An entry of the loop's history: a submission started or its outcome
/// reported, for the block at the given slot.
pub enum Step {
    Started(u64),
    Reported(u64),
}

/// The phase after the loop, waiting, receives `item`.
pub open spec fn phase_after_item(item: FeedItem) -> Phase {
    match item {
        FeedItem::Block(e) => Phase::Submitting(e.slot),
        FeedItem::Other => Phase::Awaiting,
        FeedItem::Closed => Phase::Exited(ExitReason::RemoteClosed),
        FeedItem::Failed => Phase::Exited(ExitReason::TransportError),
    }
}

/// What the loop, waiting, asks for on `item`.
pub open spec fn action_for_item(item: FeedItem) -> Action {
    match item {
        FeedItem::Block(e) => Action::Submit(e.slot),
        FeedItem::Other => Action::AwaitNext,
        FeedItem::Closed => Action::Exit(ExitReason::RemoteClosed),
        FeedItem::Failed => Action::Exit(ExitReason::TransportError),
    }
}

/// The history after the loop, waiting, receives `item`.
pub open spec fn log_after_item(log: Seq<Step>, item: FeedItem) -> Seq<Step> {
    match item {
        FeedItem::Block(e) => log.push(Step::Started(e.slot)),
        _ => log,
    }
}

/// The loop taken through `items`, each submission's outcome reported
/// before the next item is taken: the phase and the history it ends with.
pub open spec fn run(phase: Phase, log: Seq<Step>, items: Seq<FeedItem>) -> (Phase, Seq<Step>)
    decreases items.len(),
{
    if items.len() == 0 || phase is Exited {
        (phase, log)
    } else {
        let item = items[0];
        let next_log = log_after_item(log, item);
        match phase_after_item(item) {
            Phase::Submitting(slot) => run(
                Phase::Awaiting,
                next_log.push(Step::Reported(slot)),
                items.drop_first(),
            ),
            next => run(next, next_log, items.drop_first()),
        }
    }
}

/// One attempt per block-metadata event, in the order of the events, each
/// reported before the next starts, up to the end of the subscription.
pub open spec fn attempts(items: Seq<FeedItem>) -> Seq<Step>
    decreases items.len(),
{
    if items.len() == 0 {
        Seq::empty()
    } else {
        match items[0] {
            FeedItem::Block(e) => seq![Step::Started(e.slot), Step::Reported(e.slot)] + attempts(
                items.drop_first(),
            ),
            FeedItem::Other => attempts(items.drop_first()),
            _ => Seq::empty(),
        }
    }
}

/// Events are handled strictly in the order the subscription delivers them:
/// for each block-metadata event exactly one submission is started, and its
/// outcome is reported before the submission for the next event starts;
/// nothing is started after the subscription ends.
pub proof fn lemma_attempts_in_order(log: Seq<Step>, items: Seq<FeedItem>)
    ensures
        run(Phase::Awaiting, log, items).1 == log + attempts(items),
    decreases items.len(),
{
    if items.len() == 0 {
        assert(log + attempts(items) =~= log);
    } else {
        let rest = items.drop_first();
        match items[0] {
            FeedItem::Block(e) => {
                let l2 = log.push(Step::Started(e.slot)).push(Step::Reported(e.slot));
                lemma_attempts_in_order(l2, rest);
                assert(l2 + attempts(rest) =~= log + (seq![Step::Started(e.slot), Step::Reported(e.slot)]
                    + attempts(rest)));
            },
            FeedItem::Other => {
                lemma_attempts_in_order(log, rest);
            },
            _ => {
                assert(run(phase_after_item(items[0]), log, rest) == (phase_after_item(items[0]), log));
                assert(log + attempts(items) =~= log);
            },
        }
    }
}

/// A subscription that ends before any event leaves the loop exited, with no
/// submission attempted.
pub proof fn lemma_empty_subscription(items: Seq<FeedItem>)
    requires
        items.len() > 0,
        items[0] == FeedItem::Closed,
    ensures
        run(Phase::Awaiting, Seq::empty(), items) == (
        Phase::Exited(ExitReason::RemoteClosed),
        Seq::<Step>::empty(),
    ),
{
    let rest = items.drop_first();
    assert(run(Phase::Exited(ExitReason::RemoteClosed), Seq::empty(), rest) == (
        Phase::Exited(ExitReason::RemoteClosed),
        Seq::<Step>::empty(),
    ));
}

/// The loop's state: its phase, the one transfer bound to it for the whole
/// run, and a history that only proofs read.
pub struct DispatchLoop {
    phase: Phase,
    transfer: Transfer,
    history: Ghost<Seq<Step>>,
}

impl DispatchLoop {
    pub closed spec fn phase(&self) -> Phase {
        self.phase
    }

    pub closed spec fn log(&self) -> Seq<Step> {
        self.history@
    }

    /// The transfer submitted on every block-metadata event.
    pub closed spec fn bound(&self) -> Transfer {
        self.transfer
    }

    /// A loop bound to `transfer` that waits for its first item and has done
    /// nothing yet.
    pub fn new(transfer: Transfer) -> (r: DispatchLoop)
        ensures
            r.phase() == Phase::Awaiting,
            r.log() == Seq::<Step>::empty(),
            r.bound() == transfer,
    {
        DispatchLoop { phase: Phase::Awaiting, transfer, history: Ghost(Seq::empty()) }
    }

    /// The transfer bound to this loop.
    pub fn transfer(&self) -> (r: &Transfer)
        ensures
            *r == self.bound(),
    {
        &self.transfer
    }

    /// The step of the submission in flight once a recent block reference
    /// was fetched, or not: the bound transfer signed at that reference, or
    /// a `Freshness` error.
    pub fn submission(&self, fetched: Option<BlockReference>) -> (r: SubmitStep)
        requires
            self.phase() is Submitting,
        ensures
            match fetched {
                None => r == SubmitStep::Finished(Err(PipelineError::Freshness)),
                Some(b) => r == SubmitStep::Send(self.bound().transaction_at(b@)),
            },
    {
        self.transfer.after_block_reference(fetched)
    }

    /// Takes the next item of the subscription. A block-metadata event starts
    /// one submission; an item of another kind is passed over; the end of the
    /// subscription, or its failure, ends the loop.
    pub fn on_item(&mut self, item: &FeedItem) -> (a: Action)
        requires
            old(self).phase() == Phase::Awaiting,
        ensures
            a == action_for_item(*item),
            final(self).phase() == phase_after_item(*item),
            final(self).log() == log_after_item(old(self).log(), *item),
            final(self).bound() == old(self).bound(),
    {
        match item {
            FeedItem::Block(e) => {
                self.phase = Phase::Submitting(e.slot);
                self.history = Ghost(self.history@.push(Step::Started(e.slot)));
                Action::Submit(e.slot)
            },
            FeedItem::Other => Action::AwaitNext,
            FeedItem::Closed => {
                self.phase = Phase::Exited(ExitReason::RemoteClosed);
                Action::Exit(ExitReason::RemoteClosed)
            },
            FeedItem::Failed => {
                self.phase = Phase::Exited(ExitReason::TransportError);
                Action::Exit(ExitReason::TransportError)
            },
        }
    }

    /// Takes the outcome of the submission in flight, once it is reported.
    /// Success or failure alike, the loop then waits for the next item.
    pub fn on_outcome(&mut self, outcome: &Result<String, PipelineError>) -> (a: Action)
        requires
            old(self).phase() is Submitting,
        ensures
            a == Action::AwaitNext,
            final(self).phase() == Phase::Awaiting,
            final(self).bound() == old(self).bound(),
            final(self).log() == old(self).log().push(
                Step::Reported(old(self).phase()->Submitting_0),
            ),
    {
        let ghost slot = self.phase->Submitting_0;
        self.phase = Phase::Awaiting;
        self.history = Ghost(self.history@.push(Step::Reported(slot)));
        Action::AwaitNext
    }

    /// Whether the loop is over.
    pub fn is_finished(&self) -> (r: bool)
        ensures
            r == (self.phase() is Exited),
    {
        match self.phase {
            Phase::Exited(_) => true,
            _ => false,
        }
    }
}

} // verus!
