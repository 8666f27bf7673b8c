//! The events the two-phase-commit engine consumes.

use vstd::prelude::*;

use super::unified_message::TwoPhaseCommitMessage;

verus! {

/// An input into the two-phase-commit engine.
#[derive(Debug, PartialEq, Eq)]
pub enum TwoPhaseCommitEvent<P, V> {
    /// A previously requested alarm has gone off.
    Alarm(),
    /// A peer delivered a message.
    Deliver(P, TwoPhaseCommitMessage<V>),
    /// The embedder starts a new epoch, proposing the given value.
    /// Only the coordinator can process it.
    Start(V),
    /// The embedder answers a request for a vote (`true` for yes).
    Vote(bool),
}

} // verus!
