//! A validating builder for two-phase-commit contexts.

use vstd::prelude::*;

use crate::error::InvalidStateError;
use crate::process::Process;
use crate::time::Time;

use super::coordinator_context::CoordinatorContextView;
use super::coordinator_context::Participant;
use super::participant_context::ParticipantContextView;
use super::unified_context::TwoPhaseCommitContext;
use super::unified_role::TwoPhaseCommitRoleContext;
use super::unified_role::TwoPhaseCommitRoleContextView;
use super::unified_state::TwoPhaseCommitState;
use super::Epoch;

verus! {

/// Builds a [`TwoPhaseCommitContext`], validating on [`build`] that the
/// required fields are set, that exactly one of the participant records and
/// the peer list is given, and that the state belongs to the chosen role.
///
/// [`build`]: TwoPhaseCommitContextBuilder::build
pub struct TwoPhaseCommitContextBuilder<P, T> {
    /// The alarm the embedder has armed, if any.
    pub alarm: Option<T>,
    /// The process coordinating the protocol.
    pub coordinator: Option<P>,
    /// The current epoch.
    pub epoch: Option<Epoch>,
    /// The most recent epoch whose decision was commit, if any.
    pub last_commit_epoch: Option<Epoch>,
    /// The coordinator's participant records; chooses the coordinator role.
    pub participants: Option<Vec<Participant<P>>>,
    /// The participant's peer list; chooses the participant role.
    pub participant_processes: Option<Vec<P>>,
    /// The protocol position, in the unified state space.
    pub state: Option<TwoPhaseCommitState<T>>,
    /// The process the context belongs to.
    pub this_process: Option<P>,
}

impl<P: Process, T: Time> TwoPhaseCommitContextBuilder<P, T> {
    /// Whether a context can be built from what has been set.
    pub open spec fn can_build(self) -> bool {
        &&& self.coordinator is Some
        &&& self.epoch is Some
        &&& self.state is Some
        &&& self.this_process is Some
        &&& match (self.participants, self.participant_processes) {
            (Some(_), None) => self.state matches Some(st) && st.spec_coordinator_state() is Some,
            (None, Some(_)) => self.state matches Some(st) && st.spec_participant_state() is Some,
            _ => false,
        }
    }

    /// Builds an empty builder.
    pub fn new() -> (r: Self)
        ensures
            r.alarm is None,
            r.coordinator is None,
            r.epoch is None,
            r.last_commit_epoch is None,
            r.participants is None,
            r.participant_processes is None,
            r.state is None,
            r.this_process is None,
    {
        Self {
            alarm: None,
            coordinator: None,
            epoch: None,
            last_commit_epoch: None,
            participants: None,
            participant_processes: None,
            state: None,
            this_process: None,
        }
    }

    /// Sets the armed alarm.
    pub fn with_alarm(self, alarm: T) -> (r: Self)
        ensures
            r == (Self { alarm: Some(alarm), ..self }),
    {
        Self { alarm: Some(alarm), ..self }
    }

    /// Sets the coordinating process.
    pub fn with_coordinator(self, coordinator: P) -> (r: Self)
        ensures
            r == (Self { coordinator: Some(coordinator), ..self }),
    {
        Self { coordinator: Some(coordinator), ..self }
    }

    /// Sets the current epoch.
    pub fn with_epoch(self, epoch: Epoch) -> (r: Self)
        ensures
            r == (Self { epoch: Some(epoch), ..self }),
    {
        Self { epoch: Some(epoch), ..self }
    }

    /// Sets the most recent epoch whose decision was commit.
    pub fn with_last_commit_epoch(self, last_commit_epoch: Epoch) -> (r: Self)
        ensures
            r == (Self { last_commit_epoch: Some(last_commit_epoch), ..self }),
    {
        Self { last_commit_epoch: Some(last_commit_epoch), ..self }
    }

    /// Sets the coordinator's participant records, choosing the coordinator
    /// role.
    pub fn with_participants(self, participants: Vec<Participant<P>>) -> (r: Self)
        ensures
            r == (Self { participants: Some(participants), ..self }),
    {
        Self { participants: Some(participants), ..self }
    }

    /// Sets the participant's peer list, choosing the participant role.
    pub fn with_participant_processes(self, participant_processes: Vec<P>) -> (r: Self)
        ensures
            r == (Self { participant_processes: Some(participant_processes), ..self }),
    {
        Self { participant_processes: Some(participant_processes), ..self }
    }

    /// Sets the protocol position.
    pub fn with_state(self, state: TwoPhaseCommitState<T>) -> (r: Self)
        ensures
            r == (Self { state: Some(state), ..self }),
    {
        Self { state: Some(state), ..self }
    }

    /// Sets the process the context belongs to.
    pub fn with_this_process(self, this_process: P) -> (r: Self)
        ensures
            r == (Self { this_process: Some(this_process), ..self }),
    {
        Self { this_process: Some(this_process), ..self }
    }

    /// Builds the context: succeeds exactly when the required fields are
    /// set, exactly one of the participant records and the peer list is
    /// given, and the state belongs to the chosen role; the built context
    /// carries exactly what was set.
    pub fn build(self) -> (r: Result<
        TwoPhaseCommitContext<P, T, TwoPhaseCommitRoleContext<P, T>>,
        InvalidStateError,
    >)
        ensures
            r is Ok <==> self.can_build(),
            (match r {
                Ok(ctx) => {
                    &&& self.coordinator matches Some(c) && ctx@.coordinator == c
                    &&& self.epoch matches Some(e) && ctx@.epoch == e
                    &&& self.this_process matches Some(t) && ctx@.this_process == t
                    &&& ctx@.alarm == self.alarm
                    &&& ctx@.last_commit_epoch == self.last_commit_epoch
                    &&& (match (self.participants, self.participant_processes, self.state) {
                        (Some(ps), None, Some(st)) => st.spec_coordinator_state() matches Some(cs)
                            && ctx@.role_context == (TwoPhaseCommitRoleContextView::Coordinator(
                            CoordinatorContextView { participants: ps@, state: cs },
                        )),
                        (None, Some(pp), Some(st)) => st.spec_participant_state() matches Some(pst)
                            && ctx@.role_context == (TwoPhaseCommitRoleContextView::Participant(
                            ParticipantContextView { participant_processes: pp@, state: pst },
                        )),
                        _ => false,
                    })
                },
                Err(_) => true,
            }),
    {
        let alarm = self.alarm;
        let last_commit_epoch = self.last_commit_epoch;

        let coordinator = match self.coordinator {
            Some(coordinator) => coordinator,
            None => {
                return Err(InvalidStateError::with_message("missing coordinator field".to_owned()));
            },
        };
        let epoch = match self.epoch {
            Some(epoch) => epoch,
            None => {
                return Err(InvalidStateError::with_message("missing epoch field".to_owned()));
            },
        };
        let state = match self.state {
            Some(state) => state,
            None => {
                return Err(InvalidStateError::with_message("missing state field".to_owned()));
            },
        };
        let this_process = match self.this_process {
            Some(this_process) => this_process,
            None => {
                return Err(
                    InvalidStateError::with_message("missing this_process field".to_owned()),
                );
            },
        };
        let role_context = match (self.participants, self.participant_processes) {
            (Some(participants), None) => match TwoPhaseCommitRoleContext::new_coordinator(
                participants,
                state,
            ) {
                Ok(role_context) => role_context,
                Err(e) => {
                    return Err(e);
                },
            },
            (None, Some(participant_processes)) => match TwoPhaseCommitRoleContext::new_participant(
                participant_processes,
                state,
            ) {
                Ok(role_context) => role_context,
                Err(e) => {
                    return Err(e);
                },
            },
            (Some(_), Some(_)) => {
                return Err(
                    InvalidStateError::with_message(
                        "participants and participant_processes fields are mutually exclusive".to_owned(),
                    ),
                );
            },
            (None, None) => {
                return Err(
                    InvalidStateError::with_message(
                        "exactly one of the participants and participant_processes fields is required".to_owned(),
                    ),
                );
            },
        };

        Ok(
            TwoPhaseCommitContext {
                alarm,
                coordinator,
                epoch,
                last_commit_epoch,
                role_context,
                this_process,
            },
        )
    }
}

} // verus!
