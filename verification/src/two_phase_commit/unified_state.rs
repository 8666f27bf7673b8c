//! The unified protocol state and its role-specific projections.

use vstd::prelude::*;

use crate::error::InvalidStateError;
use crate::time::Time;

use super::coordinator_context::CoordinatorState;
use super::participant_context::ParticipantState;

verus! {

/// The protocol position of a process of either role.
///
/// `Abort` and `Commit` are shared between the roles; `Voting`,
/// `WaitingForStart`, `WaitingForVote` and `WaitingForDecisionAck` belong to
/// the coordinator; `Voted`, `WaitingForVoteRequest` and `WaitingForVote`
/// belong to the participant. `WaitingForVote` names a position of either
/// role.
#[derive(Clone, Copy, Debug, PartialEq, Eq)]
pub enum TwoPhaseCommitState<T> {
    /// A decision to abort has been reached for the current epoch.
    Abort,
    /// A decision to commit has been reached for the current epoch.
    Commit,
    /// Participant: the vote has been sent; the decision is awaited.
    Voted { vote: bool, decision_timeout_start: T },
    /// Coordinator: votes are being collected.
    Voting { vote_timeout_start: T },
    /// Coordinator: idle, awaiting a start event.
    WaitingForStart,
    /// Participant: idle, awaiting the coordinator's vote request.
    WaitingForVoteRequest,
    /// Awaiting a local vote, of the coordinator or of the participant.
    WaitingForVote,
    /// Coordinator: the decision has been announced; acknowledgements are
    /// being collected.
    WaitingForDecisionAck { ack_timeout_start: T },
}

impl<T: Time> TwoPhaseCommitState<T> {
    /// The coordinator state this unified state projects to, or `None` when
    /// the state belongs to the participant role alone.
    pub open spec fn spec_coordinator_state(self) -> Option<CoordinatorState<T>> {
        match self {
            TwoPhaseCommitState::Abort => Some(CoordinatorState::Abort),
            TwoPhaseCommitState::Commit => Some(CoordinatorState::Commit),
            TwoPhaseCommitState::Voting { vote_timeout_start } => Some(
                CoordinatorState::Voting { vote_timeout_start },
            ),
            TwoPhaseCommitState::WaitingForStart => Some(CoordinatorState::WaitingForStart),
            TwoPhaseCommitState::WaitingForVote => Some(CoordinatorState::WaitingForVote),
            TwoPhaseCommitState::WaitingForDecisionAck { ack_timeout_start } => Some(
                CoordinatorState::WaitingForDecisionAck { ack_timeout_start },
            ),
            _ => None,
        }
    }

    /// The participant state this unified state projects to, or `None` when
    /// the state belongs to the coordinator role alone.
    pub open spec fn spec_participant_state(self) -> Option<ParticipantState<T>> {
        match self {
            TwoPhaseCommitState::Abort => Some(ParticipantState::Abort),
            TwoPhaseCommitState::Commit => Some(ParticipantState::Commit),
            TwoPhaseCommitState::Voted { vote, decision_timeout_start } => Some(
                ParticipantState::Voted { vote, decision_timeout_start },
            ),
            TwoPhaseCommitState::WaitingForVoteRequest => Some(
                ParticipantState::WaitingForVoteRequest,
            ),
            TwoPhaseCommitState::WaitingForVote => Some(ParticipantState::WaitingForVote),
            _ => None,
        }
    }

    /// Projects the unified state onto the coordinator role; states that
    /// belong to the participant role alone are rejected.
    pub fn try_into_coordinator_state(self) -> (r: Result<CoordinatorState<T>, InvalidStateError>)
        ensures
            (match self.spec_coordinator_state() {
                Some(s) => r matches Ok(c) && c == s,
                None => r is Err,
            }),
    {
        match self {
            TwoPhaseCommitState::Abort => Ok(CoordinatorState::Abort),
            TwoPhaseCommitState::Commit => Ok(CoordinatorState::Commit),
            TwoPhaseCommitState::Voting { vote_timeout_start } => Ok(
                CoordinatorState::Voting { vote_timeout_start },
            ),
            TwoPhaseCommitState::WaitingForStart => Ok(CoordinatorState::WaitingForStart),
            TwoPhaseCommitState::WaitingForVote => Ok(CoordinatorState::WaitingForVote),
            TwoPhaseCommitState::WaitingForDecisionAck { ack_timeout_start } => Ok(
                CoordinatorState::WaitingForDecisionAck { ack_timeout_start },
            ),
            TwoPhaseCommitState::WaitingForVoteRequest | TwoPhaseCommitState::Voted { .. } => Err(
                InvalidStateError::with_message("invalid state for coordinator".to_owned()),
            ),
        }
    }

    /// Projects the unified state onto the participant role; states that
    /// belong to the coordinator role alone are rejected.
    pub fn try_into_participant_state(self) -> (r: Result<ParticipantState<T>, InvalidStateError>)
        ensures
            (match self.spec_participant_state() {
                Some(s) => r matches Ok(p) && p == s,
                None => r is Err,
            }),
    {
        match self {
            TwoPhaseCommitState::Abort => Ok(ParticipantState::Abort),
            TwoPhaseCommitState::Commit => Ok(ParticipantState::Commit),
            TwoPhaseCommitState::Voted { vote, decision_timeout_start } => Ok(
                ParticipantState::Voted { vote, decision_timeout_start },
            ),
            TwoPhaseCommitState::WaitingForVoteRequest => Ok(
                ParticipantState::WaitingForVoteRequest,
            ),
            TwoPhaseCommitState::WaitingForVote => Ok(ParticipantState::WaitingForVote),
            TwoPhaseCommitState::WaitingForStart
            | TwoPhaseCommitState::WaitingForDecisionAck { .. }
            | TwoPhaseCommitState::Voting { .. } => Err(
                InvalidStateError::with_message("invalid state for participant".to_owned()),
            ),
        }
    }
}

impl<T: Time> CoordinatorState<T> {
    /// The unified state this coordinator state corresponds to.
    pub open spec fn spec_unified_state(self) -> TwoPhaseCommitState<T> {
        match self {
            CoordinatorState::Abort => TwoPhaseCommitState::Abort,
            CoordinatorState::Commit => TwoPhaseCommitState::Commit,
            CoordinatorState::Voting { vote_timeout_start } => TwoPhaseCommitState::Voting {
                vote_timeout_start,
            },
            CoordinatorState::WaitingForStart => TwoPhaseCommitState::WaitingForStart,
            CoordinatorState::WaitingForVote => TwoPhaseCommitState::WaitingForVote,
            CoordinatorState::WaitingForDecisionAck { ack_timeout_start } => (
            TwoPhaseCommitState::WaitingForDecisionAck { ack_timeout_start }),
        }
    }

    /// Lifts the coordinator state back to the unified state space.
    pub fn into_unified_state(self) -> (r: TwoPhaseCommitState<T>)
        ensures
            r == self.spec_unified_state(),
    {
        match self {
            CoordinatorState::Abort => TwoPhaseCommitState::Abort,
            CoordinatorState::Commit => TwoPhaseCommitState::Commit,
            CoordinatorState::Voting { vote_timeout_start } => TwoPhaseCommitState::Voting {
                vote_timeout_start,
            },
            CoordinatorState::WaitingForStart => TwoPhaseCommitState::WaitingForStart,
            CoordinatorState::WaitingForVote => TwoPhaseCommitState::WaitingForVote,
            CoordinatorState::WaitingForDecisionAck { ack_timeout_start } => (
            TwoPhaseCommitState::WaitingForDecisionAck { ack_timeout_start }),
        }
    }
}

impl<T: Time> ParticipantState<T> {
    /// The unified state this participant state corresponds to.
    pub open spec fn spec_unified_state(self) -> TwoPhaseCommitState<T> {
        match self {
            ParticipantState::Abort => TwoPhaseCommitState::Abort,
            ParticipantState::Commit => TwoPhaseCommitState::Commit,
            ParticipantState::Voted { vote, decision_timeout_start } => TwoPhaseCommitState::Voted {
                vote,
                decision_timeout_start,
            },
            ParticipantState::WaitingForVoteRequest => TwoPhaseCommitState::WaitingForVoteRequest,
            ParticipantState::WaitingForVote => TwoPhaseCommitState::WaitingForVote,
        }
    }

    /// Lifts the participant state back to the unified state space.
    pub fn into_unified_state(self) -> (r: TwoPhaseCommitState<T>)
        ensures
            r == self.spec_unified_state(),
    {
        match self {
            ParticipantState::Abort => TwoPhaseCommitState::Abort,
            ParticipantState::Commit => TwoPhaseCommitState::Commit,
            ParticipantState::Voted { vote, decision_timeout_start } => TwoPhaseCommitState::Voted {
                vote,
                decision_timeout_start,
            },
            ParticipantState::WaitingForVoteRequest => TwoPhaseCommitState::WaitingForVoteRequest,
            ParticipantState::WaitingForVote => TwoPhaseCommitState::WaitingForVote,
        }
    }
}

} // verus!
