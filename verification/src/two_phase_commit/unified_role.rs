//! The role-specific half of a unified context.

use vstd::prelude::*;

use crate::error::InvalidStateError;
use crate::process::Process;
use crate::time::Time;

use super::coordinator_context::CoordinatorContext;
use super::coordinator_context::CoordinatorContextView;
use super::coordinator_context::Participant;
use super::participant_context::ParticipantContext;
use super::participant_context::ParticipantContextView;
use super::unified_state::TwoPhaseCommitState;

verus! {

/// The role-specific half of a unified two-phase-commit context: either a
/// coordinator's participant records or a participant's peer list, each with
/// the role's protocol position.
#[derive(Debug, PartialEq, Eq)]
pub enum TwoPhaseCommitRoleContext<P, T> {
    /// This process coordinates the protocol.
    Coordinator(CoordinatorContext<P, T>),
    /// This process takes part as a plain participant.
    Participant(ParticipantContext<P, T>),
}

/// The mathematical content of a [`TwoPhaseCommitRoleContext`].
#[verifier::ext_equal]
pub ghost enum TwoPhaseCommitRoleContextView<P, T> {
    /// This process coordinates the protocol.
    Coordinator(CoordinatorContextView<P, T>),
    /// This process takes part as a plain participant.
    Participant(ParticipantContextView<P, T>),
}

impl<P, T> View for TwoPhaseCommitRoleContext<P, T> {
    type V = TwoPhaseCommitRoleContextView<P, T>;

    open spec fn view(&self) -> TwoPhaseCommitRoleContextView<P, T> {
        match self {
            TwoPhaseCommitRoleContext::Coordinator(c) => (
            TwoPhaseCommitRoleContextView::Coordinator(c@)),
            TwoPhaseCommitRoleContext::Participant(c) => (
            TwoPhaseCommitRoleContextView::Participant(c@)),
        }
    }
}

impl<P: Process, T: Time> TwoPhaseCommitRoleContext<P, T> {
    /// Builds the coordinator-side role context from participant records and
    /// a unified state, rejecting states that do not belong to the
    /// coordinator role.
    pub fn new_coordinator(participants: Vec<Participant<P>>, state: TwoPhaseCommitState<T>) -> (r:
        Result<Self, InvalidStateError>)
        ensures
            (match state.spec_coordinator_state() {
                Some(s) => r matches Ok(rc) && rc@ == (TwoPhaseCommitRoleContextView::Coordinator(
                    CoordinatorContextView { participants: participants@, state: s },
                )),
                None => r is Err,
            }),
    {
        match state.try_into_coordinator_state() {
            Ok(s) => Ok(
                TwoPhaseCommitRoleContext::Coordinator(
                    CoordinatorContext { participants, state: s },
                ),
            ),
            Err(e) => Err(e),
        }
    }

    /// Builds the participant-side role context from a peer list and a
    /// unified state, rejecting states that do not belong to the participant
    /// role.
    pub fn new_participant(participant_processes: Vec<P>, state: TwoPhaseCommitState<T>) -> (r:
        Result<Self, InvalidStateError>)
        ensures
            (match state.spec_participant_state() {
                Some(s) => r matches Ok(rc) && rc@ == (TwoPhaseCommitRoleContextView::Participant(
                    ParticipantContextView { participant_processes: participant_processes@, state: s },
                )),
                None => r is Err,
            }),
    {
        match state.try_into_participant_state() {
            Ok(s) => Ok(
                TwoPhaseCommitRoleContext::Participant(
                    ParticipantContext { participant_processes, state: s },
                ),
            ),
            Err(e) => Err(e),
        }
    }

    /// The coordinator's participant records, when this process coordinates.
    pub fn participants(&self) -> (r: Option<&Vec<Participant<P>>>)
        ensures
            (match self {
                TwoPhaseCommitRoleContext::Coordinator(c) => r matches Some(v) && v@
                    == c.participants@,
                TwoPhaseCommitRoleContext::Participant(_) => r is None,
            }),
    {
        match self {
            TwoPhaseCommitRoleContext::Coordinator(c) => Some(&c.participants),
            TwoPhaseCommitRoleContext::Participant(_) => None,
        }
    }

    /// The participant's peer list, when this process is a plain
    /// participant.
    pub fn participant_processes(&self) -> (r: Option<&Vec<P>>)
        ensures
            (match self {
                TwoPhaseCommitRoleContext::Coordinator(_) => r is None,
                TwoPhaseCommitRoleContext::Participant(c) => r matches Some(v) && v@
                    == c.participant_processes@,
            }),
    {
        match self {
            TwoPhaseCommitRoleContext::Coordinator(_) => None,
            TwoPhaseCommitRoleContext::Participant(c) => Some(&c.participant_processes),
        }
    }

    /// The role's protocol position, in the unified state space.
    pub open spec fn spec_state(self) -> TwoPhaseCommitState<T> {
        match self {
            TwoPhaseCommitRoleContext::Coordinator(c) => c.state.spec_unified_state(),
            TwoPhaseCommitRoleContext::Participant(c) => c.state.spec_unified_state(),
        }
    }

    /// Returns the role's protocol position, in the unified state space.
    pub fn state(&self) -> (r: TwoPhaseCommitState<T>)
        ensures
            r == self.spec_state(),
    {
        match self {
            TwoPhaseCommitRoleContext::Coordinator(c) => c.state.into_unified_state(),
            TwoPhaseCommitRoleContext::Participant(c) => c.state.into_unified_state(),
        }
    }

    /// Returns a copy of the role context.
    pub fn clone_role_context(&self) -> (r: Self)
        ensures
            r@ == self@,
    {
        match self {
            TwoPhaseCommitRoleContext::Coordinator(c) => TwoPhaseCommitRoleContext::Coordinator(
                c.clone_role_context(),
            ),
            TwoPhaseCommitRoleContext::Participant(c) => TwoPhaseCommitRoleContext::Participant(
                c.clone_role_context(),
            ),
        }
    }
}

} // verus!
