//! The messages a participant can receive.

use vstd::prelude::*;

use crate::algorithm::Value;
use crate::error::InvalidStateError;

use super::unified_message::TwoPhaseCommitMessage;
use super::Epoch;

verus! {

/// A message which is delivered to a participant.
///
/// This is the subset of [`TwoPhaseCommitMessage`] containing only the
/// messages which can be delivered to a participant.
#[derive(Debug, PartialEq, Eq)]
pub enum ParticipantMessage<V> {
    /// The coordinator asks for a vote on the given value.
    VoteRequest(Epoch, V),
    /// The coordinator announces the decision to commit.
    Commit(Epoch),
    /// The coordinator announces the decision to abort.
    Abort(Epoch),
    /// A peer in its uncertainty period asks for the decision.
    DecisionRequest(Epoch),
}

impl<V: Value> ParticipantMessage<V> {
    /// The unified message this participant message corresponds to.
    pub open spec fn spec_unified_message(self) -> TwoPhaseCommitMessage<V> {
        match self {
            ParticipantMessage::VoteRequest(epoch, value) => TwoPhaseCommitMessage::VoteRequest(
                epoch,
                value,
            ),
            ParticipantMessage::Commit(epoch) => TwoPhaseCommitMessage::Commit(epoch),
            ParticipantMessage::Abort(epoch) => TwoPhaseCommitMessage::Abort(epoch),
            ParticipantMessage::DecisionRequest(epoch) => TwoPhaseCommitMessage::DecisionRequest(
                epoch,
            ),
        }
    }

    /// Lifts the participant message back to the unified message space.
    pub fn into_unified_message(self) -> (r: TwoPhaseCommitMessage<V>)
        ensures
            r == self.spec_unified_message(),
    {
        match self {
            ParticipantMessage::VoteRequest(epoch, value) => TwoPhaseCommitMessage::VoteRequest(
                epoch,
                value,
            ),
            ParticipantMessage::Commit(epoch) => TwoPhaseCommitMessage::Commit(epoch),
            ParticipantMessage::Abort(epoch) => TwoPhaseCommitMessage::Abort(epoch),
            ParticipantMessage::DecisionRequest(epoch) => TwoPhaseCommitMessage::DecisionRequest(
                epoch,
            ),
        }
    }
}

impl<V: Value> TwoPhaseCommitMessage<V> {
    /// The participant message this unified message projects to, or `None`
    /// when only the coordinator can receive it.
    pub open spec fn spec_participant_message(self) -> Option<ParticipantMessage<V>> {
        match self {
            TwoPhaseCommitMessage::VoteRequest(epoch, value) => Some(
                ParticipantMessage::VoteRequest(epoch, value),
            ),
            TwoPhaseCommitMessage::Commit(epoch) => Some(ParticipantMessage::Commit(epoch)),
            TwoPhaseCommitMessage::Abort(epoch) => Some(ParticipantMessage::Abort(epoch)),
            TwoPhaseCommitMessage::DecisionRequest(epoch) => Some(
                ParticipantMessage::DecisionRequest(epoch),
            ),
            _ => None,
        }
    }

    /// Projects the unified message onto the participant role; messages only
    /// the coordinator can receive are rejected.
    pub fn try_into_participant_message(self) -> (r: Result<
        ParticipantMessage<V>,
        InvalidStateError,
    >)
        ensures
            (match self.spec_participant_message() {
                Some(m) => r matches Ok(p) && p == m,
                None => r is Err,
            }),
    {
        match self {
            TwoPhaseCommitMessage::VoteRequest(epoch, value) => Ok(
                ParticipantMessage::VoteRequest(epoch, value),
            ),
            TwoPhaseCommitMessage::Commit(epoch) => Ok(ParticipantMessage::Commit(epoch)),
            TwoPhaseCommitMessage::Abort(epoch) => Ok(ParticipantMessage::Abort(epoch)),
            TwoPhaseCommitMessage::DecisionRequest(epoch) => Ok(
                ParticipantMessage::DecisionRequest(epoch),
            ),
            TwoPhaseCommitMessage::VoteResponse(_, _) => Err(
                InvalidStateError::with_message(
                    "VoteResponse message cannot be handled by a participant".to_owned(),
                ),
            ),
            TwoPhaseCommitMessage::DecisionAck(_) => Err(
                InvalidStateError::with_message(
                    "DecisionAck message cannot be handled by a participant".to_owned(),
                ),
            ),
        }
    }
}

} // verus!
