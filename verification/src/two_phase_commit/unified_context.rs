//! The persistent context of a two-phase-commit process.

use vstd::prelude::*;

use crate::error::InvalidStateError;
use crate::process::Process;
use crate::time::Time;

use super::coordinator_context::CoordinatorContext;
use super::coordinator_context::CoordinatorContextView;
use super::coordinator_context::CoordinatorState;
use super::coordinator_context::Participant;
use super::participant_context::ParticipantContext;
use super::participant_context::ParticipantContextView;
use super::participant_context::ParticipantState;
use super::unified_role::TwoPhaseCommitRoleContext;
use super::unified_role::TwoPhaseCommitRoleContextView;
use super::unified_state::TwoPhaseCommitState;
use super::Epoch;

verus! {

/// The persistent state of one process running two-phase commit.
///
/// The embedder owns the context: it passes it into the engine with each
/// event and durably stores the successor context carried by every update
/// action before acting on the actions that follow it. The role context
/// distinguishes the coordinator from a plain participant; the type
/// parameter `R` is the role context's type, role-specific when the context
/// has been projected onto a role.
#[derive(Debug, PartialEq, Eq)]
pub struct TwoPhaseCommitContext<P, T, R = TwoPhaseCommitRoleContext<P, T>> {
    /// The alarm the embedder currently has armed, if any.
    pub alarm: Option<T>,
    /// The process coordinating the protocol.
    pub coordinator: P,
    /// The current epoch.
    pub epoch: Epoch,
    /// The most recent epoch whose decision was commit, if any.
    pub last_commit_epoch: Option<Epoch>,
    /// The role-specific half of the context.
    pub role_context: R,
    /// The process this context belongs to.
    pub this_process: P,
}

/// The mathematical content of a [`TwoPhaseCommitContext`], with the role
/// context abstracted to its own mathematical content.
#[verifier::ext_equal]
pub ghost struct TwoPhaseCommitContextView<P, T, RV> {
    /// The alarm the embedder currently has armed, if any.
    pub alarm: Option<T>,
    /// The process coordinating the protocol.
    pub coordinator: P,
    /// The current epoch.
    pub epoch: Epoch,
    /// The most recent epoch whose decision was commit, if any.
    pub last_commit_epoch: Option<Epoch>,
    /// The role-specific half of the context.
    pub role_context: RV,
    /// The process this context belongs to.
    pub this_process: P,
}

impl<P, T, R: View> View for TwoPhaseCommitContext<P, T, R> {
    type V = TwoPhaseCommitContextView<P, T, R::V>;

    open spec fn view(&self) -> TwoPhaseCommitContextView<P, T, R::V> {
        TwoPhaseCommitContextView {
            alarm: self.alarm,
            coordinator: self.coordinator,
            epoch: self.epoch,
            last_commit_epoch: self.last_commit_epoch,
            role_context: self.role_context@,
            this_process: self.this_process,
        }
    }
}

impl<P, T, RV> TwoPhaseCommitContextView<P, T, RV> {
    /// This context with another alarm.
    pub open spec fn with_alarm(self, alarm: Option<T>) -> Self {
        TwoPhaseCommitContextView { alarm, ..self }
    }

    /// This context with another epoch.
    pub open spec fn with_epoch(self, epoch: Epoch) -> Self {
        TwoPhaseCommitContextView { epoch, ..self }
    }

    /// This context with another last commit epoch.
    pub open spec fn with_last_commit_epoch(self, last_commit_epoch: Option<Epoch>) -> Self {
        TwoPhaseCommitContextView { last_commit_epoch, ..self }
    }

    /// This context with another role context, possibly of the other role.
    pub open spec fn with_role_context<RV2>(self, role_context: RV2) -> TwoPhaseCommitContextView<
        P,
        T,
        RV2,
    > {
        TwoPhaseCommitContextView {
            alarm: self.alarm,
            coordinator: self.coordinator,
            epoch: self.epoch,
            last_commit_epoch: self.last_commit_epoch,
            role_context,
            this_process: self.this_process,
        }
    }
}

impl<P, T> TwoPhaseCommitContextView<P, T, CoordinatorContextView<P, T>> {
    /// This context with another coordinator state.
    pub open spec fn with_state(self, state: CoordinatorState<T>) -> Self {
        self.with_role_context(
            CoordinatorContextView { participants: self.role_context.participants, state },
        )
    }

    /// This context with other participant records.
    pub open spec fn with_participants(self, participants: Seq<Participant<P>>) -> Self {
        self.with_role_context(
            CoordinatorContextView { participants, state: self.role_context.state },
        )
    }
}

impl<P, T> TwoPhaseCommitContextView<P, T, ParticipantContextView<P, T>> {
    /// This context with another participant state.
    pub open spec fn with_state(self, state: ParticipantState<T>) -> Self {
        self.with_role_context(
            ParticipantContextView {
                participant_processes: self.role_context.participant_processes,
                state,
            },
        )
    }
}

impl<P: Process, T: Time, R> TwoPhaseCommitContext<P, T, R> {
    /// Returns the alarm the embedder currently has armed, if any.
    pub fn alarm(&self) -> (r: &Option<T>)
        ensures
            *r == self.alarm,
    {
        &self.alarm
    }

    /// Replaces the recorded alarm.
    pub fn set_alarm(&mut self, alarm: Option<T>)
        ensures
            *final(self) == (TwoPhaseCommitContext { alarm, ..*old(self) }),
    {
        self.alarm = alarm;
    }

    /// Returns the process coordinating the protocol.
    pub fn coordinator(&self) -> (r: &P)
        ensures
            *r == self.coordinator,
    {
        &self.coordinator
    }

    /// Returns the current epoch.
    pub fn epoch(&self) -> (r: &Epoch)
        ensures
            *r == self.epoch,
    {
        &self.epoch
    }

    /// Replaces the current epoch.
    pub fn set_epoch(&mut self, epoch: Epoch)
        ensures
            *final(self) == (TwoPhaseCommitContext { epoch, ..*old(self) }),
    {
        self.epoch = epoch;
    }

    /// Returns the most recent epoch whose decision was commit, if any.
    pub fn last_commit_epoch(&self) -> (r: &Option<Epoch>)
        ensures
            *r == self.last_commit_epoch,
    {
        &self.last_commit_epoch
    }

    /// Replaces the recorded last commit epoch.
    pub fn set_last_commit_epoch(&mut self, epoch: Option<Epoch>)
        ensures
            *final(self) == (TwoPhaseCommitContext { last_commit_epoch: epoch, ..*old(self) }),
    {
        self.last_commit_epoch = epoch;
    }

    /// Returns the process this context belongs to.
    pub fn this_process(&self) -> (r: &P)
        ensures
            *r == self.this_process,
    {
        &self.this_process
    }
}

impl<P: Process, T: Time> TwoPhaseCommitContext<P, T, TwoPhaseCommitRoleContext<P, T>> {
    /// The coordinator's participant records, when this process coordinates.
    pub fn participants(&self) -> (r: Option<&Vec<Participant<P>>>)
        ensures
            (match self.role_context@ {
                TwoPhaseCommitRoleContextView::Coordinator(c) => r matches Some(v) && v@
                    == c.participants,
                TwoPhaseCommitRoleContextView::Participant(_) => r is None,
            }),
    {
        self.role_context.participants()
    }

    /// The participant's peer list, when this process is a plain
    /// participant.
    pub fn participant_processes(&self) -> (r: Option<&Vec<P>>)
        ensures
            (match self.role_context@ {
                TwoPhaseCommitRoleContextView::Coordinator(_) => r is None,
                TwoPhaseCommitRoleContextView::Participant(c) => r matches Some(v) && v@
                    == c.participant_processes,
            }),
    {
        self.role_context.participant_processes()
    }

    /// Returns the role's protocol position, in the unified state space.
    pub fn state(&self) -> (r: TwoPhaseCommitState<T>)
        ensures
            r == self.role_context.spec_state(),
    {
        self.role_context.state()
    }

    /// Returns a copy of the context.
    pub fn clone_context(&self) -> (r: Self)
        ensures
            r@ == self@,
    {
        TwoPhaseCommitContext {
            alarm: self.alarm,
            coordinator: self.coordinator.clone_process(),
            epoch: self.epoch,
            last_commit_epoch: self.last_commit_epoch,
            role_context: self.role_context.clone_role_context(),
            this_process: self.this_process.clone_process(),
        }
    }

    /// Projects the context onto the coordinator role, rejecting contexts
    /// whose role context belongs to a plain participant.
    pub fn try_into_coordinator_context(self) -> (r: Result<
        TwoPhaseCommitContext<P, T, CoordinatorContext<P, T>>,
        InvalidStateError,
    >)
        ensures
            (match self@.role_context {
                TwoPhaseCommitRoleContextView::Coordinator(c) => r matches Ok(ctx) && ctx@
                    == self@.with_role_context(c),
                TwoPhaseCommitRoleContextView::Participant(_) => r is Err,
            }),
    {
        match self.role_context {
            TwoPhaseCommitRoleContext::Coordinator(role_context) => Ok(
                TwoPhaseCommitContext {
                    alarm: self.alarm,
                    coordinator: self.coordinator,
                    epoch: self.epoch,
                    last_commit_epoch: self.last_commit_epoch,
                    role_context,
                    this_process: self.this_process,
                },
            ),
            TwoPhaseCommitRoleContext::Participant(_) => Err(
                InvalidStateError::with_message(
                    "the role context belongs to a plain participant, not a coordinator".to_owned(),
                ),
            ),
        }
    }

    /// Projects the context onto the participant role, rejecting contexts
    /// whose role context belongs to the coordinator.
    pub fn try_into_participant_context(self) -> (r: Result<
        TwoPhaseCommitContext<P, T, ParticipantContext<P, T>>,
        InvalidStateError,
    >)
        ensures
            (match self@.role_context {
                TwoPhaseCommitRoleContextView::Participant(c) => r matches Ok(ctx) && ctx@
                    == self@.with_role_context(c),
                TwoPhaseCommitRoleContextView::Coordinator(_) => r is Err,
            }),
    {
        match self.role_context {
            TwoPhaseCommitRoleContext::Participant(role_context) => Ok(
                TwoPhaseCommitContext {
                    alarm: self.alarm,
                    coordinator: self.coordinator,
                    epoch: self.epoch,
                    last_commit_epoch: self.last_commit_epoch,
                    role_context,
                    this_process: self.this_process,
                },
            ),
            TwoPhaseCommitRoleContext::Coordinator(_) => Err(
                InvalidStateError::with_message(
                    "the role context belongs to the coordinator, not a plain participant".to_owned(),
                ),
            ),
        }
    }
}

impl<P: Process, T: Time> TwoPhaseCommitContext<P, T, CoordinatorContext<P, T>> {
    /// Seeds a coordinator's context: epoch 0, nothing committed yet, no
    /// alarm armed, idle, with a fresh record for each given participant
    /// process. The seed is well formed in the sense the protocol laws
    /// assume, so every context a run starting from it can store is too.
    pub fn new(coordinator: P, participant_processes: Vec<P>) -> (r: Self)
        ensures
            r@.alarm is None,
            r@.coordinator == coordinator,
            r@.epoch == 0,
            r@.last_commit_epoch is None,
            r@.this_process == coordinator,
            r@.role_context.state == CoordinatorState::<T>::WaitingForStart,
            r@.role_context.participants.len() == participant_processes@.len(),
            forall|i: int|
                0 <= i < participant_processes@.len() ==> r@.role_context.participants[i] == (
                Participant {
                    process: participant_processes@[i],
                    vote: None,
                    decision_ack: false,
                }),
    {
        let this_process = coordinator.clone_process();
        let mut participants: Vec<Participant<P>> = Vec::new();
        let mut i: usize = 0;
        while i < participant_processes.len()
            invariant
                i <= participant_processes@.len(),
                participants@.len() == i,
                forall|j: int|
                    0 <= j < i ==> participants@[j] == (Participant {
                        process: participant_processes@[j],
                        vote: None,
                        decision_ack: false,
                    }),
            decreases participant_processes@.len() - i,
        {
            participants.push(Participant::new(participant_processes[i].clone_process()));
            i += 1;
        }
        TwoPhaseCommitContext {
            alarm: None,
            coordinator,
            epoch: 0,
            last_commit_epoch: None,
            role_context: CoordinatorContext {
                participants,
                state: CoordinatorState::WaitingForStart,
            },
            this_process,
        }
    }

    /// Returns the coordinator's participant records.
    pub fn participants(&self) -> (r: &Vec<Participant<P>>)
        ensures
            *r == self.role_context.participants,
    {
        &self.role_context.participants
    }

    /// Borrows the coordinator's participant records for mutation.
    pub fn participants_mut(&mut self) -> (r: &mut Vec<Participant<P>>)
        ensures
            *r == old(self).role_context.participants,
            *final(self) == (TwoPhaseCommitContext {
                role_context: (CoordinatorContext {
                    participants: *final(r),
                    ..old(self).role_context
                }),
                ..*old(self)
            }),
    {
        &mut self.role_context.participants
    }

    /// Returns the coordinator's protocol position.
    pub fn state(&self) -> (r: &CoordinatorState<T>)
        ensures
            *r == self.role_context.state,
    {
        &self.role_context.state
    }

    /// Replaces the coordinator's protocol position.
    pub fn set_state(&mut self, state: CoordinatorState<T>)
        ensures
            final(self)@ == old(self)@.with_state(state),
    {
        self.role_context.state = state;
    }

    /// Returns a copy of the context.
    pub fn clone_context(&self) -> (r: Self)
        ensures
            r@ == self@,
    {
        TwoPhaseCommitContext {
            alarm: self.alarm,
            coordinator: self.coordinator.clone_process(),
            epoch: self.epoch,
            last_commit_epoch: self.last_commit_epoch,
            role_context: self.role_context.clone_role_context(),
            this_process: self.this_process.clone_process(),
        }
    }

    /// Lifts the context back to the unified role space.
    pub fn into_unified_context(self) -> (r: TwoPhaseCommitContext<
        P,
        T,
        TwoPhaseCommitRoleContext<P, T>,
    >)
        ensures
            r@ == self@.with_role_context(
                TwoPhaseCommitRoleContextView::Coordinator(self@.role_context),
            ),
    {
        TwoPhaseCommitContext {
            alarm: self.alarm,
            coordinator: self.coordinator,
            epoch: self.epoch,
            last_commit_epoch: self.last_commit_epoch,
            role_context: TwoPhaseCommitRoleContext::Coordinator(self.role_context),
            this_process: self.this_process,
        }
    }
}

impl<P: Process, T: Time> TwoPhaseCommitContext<P, T, ParticipantContext<P, T>> {
    /// Returns the participant's peer list.
    pub fn participant_processes(&self) -> (r: &Vec<P>)
        ensures
            *r == self.role_context.participant_processes,
    {
        &self.role_context.participant_processes
    }

    /// Returns the participant's protocol position.
    pub fn state(&self) -> (r: &ParticipantState<T>)
        ensures
            *r == self.role_context.state,
    {
        &self.role_context.state
    }

    /// Replaces the participant's protocol position.
    pub fn set_state(&mut self, state: ParticipantState<T>)
        ensures
            final(self)@ == old(self)@.with_state(state),
    {
        self.role_context.state = state;
    }

    /// Returns a copy of the context.
    pub fn clone_context(&self) -> (r: Self)
        ensures
            r@ == self@,
    {
        TwoPhaseCommitContext {
            alarm: self.alarm,
            coordinator: self.coordinator.clone_process(),
            epoch: self.epoch,
            last_commit_epoch: self.last_commit_epoch,
            role_context: self.role_context.clone_role_context(),
            this_process: self.this_process.clone_process(),
        }
    }

    /// Lifts the context back to the unified role space.
    pub fn into_unified_context(self) -> (r: TwoPhaseCommitContext<
        P,
        T,
        TwoPhaseCommitRoleContext<P, T>,
    >)
        ensures
            r@ == self@.with_role_context(
                TwoPhaseCommitRoleContextView::Participant(self@.role_context),
            ),
    {
        TwoPhaseCommitContext {
            alarm: self.alarm,
            coordinator: self.coordinator,
            epoch: self.epoch,
            last_commit_epoch: self.last_commit_epoch,
            role_context: TwoPhaseCommitRoleContext::Participant(self.role_context),
            this_process: self.this_process,
        }
    }
}

} // verus!
