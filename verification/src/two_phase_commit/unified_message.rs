//! The messages exchanged by the two-phase-commit protocol.

use vstd::prelude::*;

use crate::algorithm::Value;
use crate::message::Message;

use super::Epoch;

verus! {

/// A message sent between processes running the two-phase-commit protocol.
///
/// Every message carries the epoch it belongs to; messages for other epochs
/// than the receiver's current one are dropped (or, for decision requests,
/// answered from the receiver's record of past epochs).
#[derive(Debug, PartialEq, Eq)]
pub enum TwoPhaseCommitMessage<V> {
    /// The coordinator asks a participant to vote on the given value.
    VoteRequest(Epoch, V),
    /// A participant sends its vote (`true` for yes) to the coordinator.
    VoteResponse(Epoch, bool),
    /// The coordinator announces the decision to commit.
    Commit(Epoch),
    /// The coordinator announces the decision to abort.
    Abort(Epoch),
    /// A process in its uncertainty period asks a peer for the decision.
    DecisionRequest(Epoch),
    /// A participant acknowledges having processed the decision.
    DecisionAck(Epoch),
}

impl<V: Value> Message for TwoPhaseCommitMessage<V> {
    fn clone_message(&self) -> (r: Self)
        ensures
            r == *self,
    {
        match self {
            TwoPhaseCommitMessage::VoteRequest(epoch, value) => TwoPhaseCommitMessage::VoteRequest(
                *epoch,
                value.clone_value(),
            ),
            TwoPhaseCommitMessage::VoteResponse(epoch, vote) => TwoPhaseCommitMessage::VoteResponse(
                *epoch,
                *vote,
            ),
            TwoPhaseCommitMessage::Commit(epoch) => TwoPhaseCommitMessage::Commit(*epoch),
            TwoPhaseCommitMessage::Abort(epoch) => TwoPhaseCommitMessage::Abort(*epoch),
            TwoPhaseCommitMessage::DecisionRequest(epoch) => TwoPhaseCommitMessage::DecisionRequest(
                *epoch,
            ),
            TwoPhaseCommitMessage::DecisionAck(epoch) => TwoPhaseCommitMessage::DecisionAck(*epoch),
        }
    }
}

} // verus!
