//! The actions the two-phase-commit engine returns.

use vstd::prelude::*;

use super::unified_context::TwoPhaseCommitContext;
use super::unified_message::TwoPhaseCommitMessage;

verus! {

/// An output of the two-phase-commit engine.
///
/// The embedder must apply the actions of a returned list in order, and must
/// durably store the context carried by an `Update` before acting on any
/// action that follows it.
#[derive(Debug, PartialEq, Eq)]
pub enum TwoPhaseCommitAction<P, V, T> {
    /// Persist the given context durably and reprogram the timer: `Some(t)`
    /// replaces any armed alarm by one at `t`; `None` clears any armed
    /// alarm.
    Update { context: TwoPhaseCommitContext<P, T>, alarm: Option<T> },
    /// Send the message to the process, best-effort.
    SendMessage(P, TwoPhaseCommitMessage<V>),
    /// Tell the embedder something it must act on or may want to know.
    Notify(TwoPhaseCommitActionNotification<V>),
}

/// What a [`TwoPhaseCommitAction::Notify`] tells the embedder.
#[derive(Debug, PartialEq, Eq)]
pub enum TwoPhaseCommitActionNotification<V> {
    /// The current epoch was decided abort.
    Abort(),
    /// The current epoch was decided commit.
    Commit(),
    /// A delivered message was dropped; the payload says why.
    MessageDropped(String),
    /// The engine is idle: the embedder should provide the next value to
    /// agree on through a start event.
    RequestForStart(),
    /// The coordinator asks its embedder for the local vote.
    CoordinatorRequestForVote(),
    /// The participant asks its embedder for the local vote on the given
    /// value.
    ParticipantRequestForVote(V),
}

} // verus!
