//! The messages a coordinator can receive.

use vstd::prelude::*;

use crate::algorithm::Value;
use crate::error::InvalidStateError;

use super::unified_message::TwoPhaseCommitMessage;
use super::Epoch;

verus! {

/// A message which is delivered to the coordinator.
///
/// This is the subset of [`TwoPhaseCommitMessage`] containing only the
/// messages which can be delivered to a coordinator.
#[derive(Clone, Copy, Debug, PartialEq, Eq)]
pub enum CoordinatorMessage {
    /// A participant's vote (`true` for yes).
    VoteResponse(Epoch, bool),
    /// A peer in its uncertainty period asks for the decision.
    DecisionRequest(Epoch),
    /// A participant acknowledges having processed the decision.
    DecisionAck(Epoch),
}

impl CoordinatorMessage {
    /// The unified message this coordinator message corresponds to.
    pub open spec fn spec_unified_message<V>(self) -> TwoPhaseCommitMessage<V> {
        match self {
            CoordinatorMessage::VoteResponse(epoch, vote) => TwoPhaseCommitMessage::VoteResponse(
                epoch,
                vote,
            ),
            CoordinatorMessage::DecisionRequest(epoch) => TwoPhaseCommitMessage::DecisionRequest(
                epoch,
            ),
            CoordinatorMessage::DecisionAck(epoch) => TwoPhaseCommitMessage::DecisionAck(epoch),
        }
    }

    /// Lifts the coordinator message back to the unified message space.
    pub fn into_unified_message<V: Value>(self) -> (r: TwoPhaseCommitMessage<V>)
        ensures
            r == self.spec_unified_message::<V>(),
    {
        match self {
            CoordinatorMessage::VoteResponse(epoch, vote) => TwoPhaseCommitMessage::VoteResponse(
                epoch,
                vote,
            ),
            CoordinatorMessage::DecisionRequest(epoch) => TwoPhaseCommitMessage::DecisionRequest(
                epoch,
            ),
            CoordinatorMessage::DecisionAck(epoch) => TwoPhaseCommitMessage::DecisionAck(epoch),
        }
    }
}

impl<V: Value> TwoPhaseCommitMessage<V> {
    /// The coordinator message this unified message projects to, or `None`
    /// when only a participant can receive it.
    pub open spec fn spec_coordinator_message(self) -> Option<CoordinatorMessage> {
        match self {
            TwoPhaseCommitMessage::VoteResponse(epoch, vote) => Some(
                CoordinatorMessage::VoteResponse(epoch, vote),
            ),
            TwoPhaseCommitMessage::DecisionRequest(epoch) => Some(
                CoordinatorMessage::DecisionRequest(epoch),
            ),
            TwoPhaseCommitMessage::DecisionAck(epoch) => Some(
                CoordinatorMessage::DecisionAck(epoch),
            ),
            _ => None,
        }
    }

    /// Projects the unified message onto the coordinator role; messages only
    /// a participant can receive are rejected.
    pub fn try_into_coordinator_message(self) -> (r: Result<CoordinatorMessage, InvalidStateError>)
        ensures
            (match self.spec_coordinator_message() {
                Some(m) => r matches Ok(c) && c == m,
                None => r is Err,
            }),
    {
        match self {
            TwoPhaseCommitMessage::VoteResponse(epoch, vote) => Ok(
                CoordinatorMessage::VoteResponse(epoch, vote),
            ),
            TwoPhaseCommitMessage::DecisionRequest(epoch) => Ok(
                CoordinatorMessage::DecisionRequest(epoch),
            ),
            TwoPhaseCommitMessage::DecisionAck(epoch) => Ok(CoordinatorMessage::DecisionAck(epoch)),
            TwoPhaseCommitMessage::VoteRequest(_, _) => Err(
                InvalidStateError::with_message(
                    "VoteRequest message cannot be handled by a coordinator".to_owned(),
                ),
            ),
            TwoPhaseCommitMessage::Commit(_) => Err(
                InvalidStateError::with_message(
                    "Commit message cannot be handled by a coordinator".to_owned(),
                ),
            ),
            TwoPhaseCommitMessage::Abort(_) => Err(
                InvalidStateError::with_message(
                    "Abort message cannot be handled by a coordinator".to_owned(),
                ),
            ),
        }
    }
}

} // verus!
