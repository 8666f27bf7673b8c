//! The actions the participant algorithm returns.

use vstd::prelude::*;

use crate::algorithm::Value;
use crate::process::Process;
use crate::time::Time;

use super::participant_context::ParticipantContext;
use super::unified_action::TwoPhaseCommitAction;
use super::unified_action::TwoPhaseCommitActionNotification;
use super::unified_context::TwoPhaseCommitContext;
use super::unified_message::TwoPhaseCommitMessage;
use super::unified_role::TwoPhaseCommitRoleContextView;

verus! {

/// An output of the participant algorithm.
#[derive(Debug, PartialEq, Eq)]
pub enum ParticipantAction<P, V, T> {
    /// Tell the embedder something it must act on or may want to know.
    Notify(ParticipantActionNotification<V>),
    /// Send the message to the process, best-effort.
    SendMessage(P, TwoPhaseCommitMessage<V>),
    /// Persist the given context durably and reprogram the timer.
    Update { context: TwoPhaseCommitContext<P, T, ParticipantContext<P, T>>, alarm: Option<T> },
}

/// What a [`ParticipantAction::Notify`] tells the embedder.
#[derive(Debug, PartialEq, Eq)]
pub enum ParticipantActionNotification<V> {
    /// The current epoch was decided abort.
    Abort(),
    /// The current epoch was decided commit.
    Commit(),
    /// A delivered message was dropped; the payload says why.
    MessageDropped(String),
    /// The participant asks its embedder for the local vote on the given
    /// value.
    RequestForVote(V),
}

/// Whether the unified notification is the lifting of the participant
/// notification.
pub open spec fn lifts_participant_notification<V>(
    n: ParticipantActionNotification<V>,
    u: TwoPhaseCommitActionNotification<V>,
) -> bool {
    match n {
        ParticipantActionNotification::Abort() => u
            == TwoPhaseCommitActionNotification::<V>::Abort(),
        ParticipantActionNotification::Commit() => u
            == TwoPhaseCommitActionNotification::<V>::Commit(),
        ParticipantActionNotification::MessageDropped(s) => u
            == TwoPhaseCommitActionNotification::<V>::MessageDropped(s),
        ParticipantActionNotification::RequestForVote(v) => u
            == TwoPhaseCommitActionNotification::<V>::ParticipantRequestForVote(v),
    }
}

/// Whether the unified action is the lifting of the participant action: the
/// same message or notification, and for an update the same context wrapped
/// into the unified role space.
pub open spec fn lifts_participant_action<P: Process, V: Value, T: Time>(
    a: ParticipantAction<P, V, T>,
    u: TwoPhaseCommitAction<P, V, T>,
) -> bool {
    match a {
        ParticipantAction::Update { context, alarm } => u matches TwoPhaseCommitAction::Update {
            context: uc,
            alarm: ua,
        } && uc@ == context@.with_role_context(
            TwoPhaseCommitRoleContextView::Participant(context@.role_context),
        ) && ua == alarm,
        ParticipantAction::SendMessage(p, m) => u == TwoPhaseCommitAction::<P, V, T>::SendMessage(
            p,
            m,
        ),
        ParticipantAction::Notify(n) => u matches TwoPhaseCommitAction::Notify(un)
            && lifts_participant_notification(n, un),
    }
}

impl<V: Value> ParticipantActionNotification<V> {
    /// Lifts the notification into the unified notification space.
    pub fn into_unified_notification(self) -> (r: TwoPhaseCommitActionNotification<V>)
        ensures
            lifts_participant_notification(self, r),
    {
        match self {
            ParticipantActionNotification::Abort() => TwoPhaseCommitActionNotification::Abort(),
            ParticipantActionNotification::Commit() => TwoPhaseCommitActionNotification::Commit(),
            ParticipantActionNotification::MessageDropped(s) => (
            TwoPhaseCommitActionNotification::MessageDropped(s)),
            ParticipantActionNotification::RequestForVote(v) => (
            TwoPhaseCommitActionNotification::ParticipantRequestForVote(v)),
        }
    }
}

impl<P: Process, V: Value, T: Time> ParticipantAction<P, V, T> {
    /// Lifts the participant action into the unified action space.
    pub fn into_unified_action(self) -> (r: TwoPhaseCommitAction<P, V, T>)
        ensures
            lifts_participant_action(self, r),
    {
        match self {
            ParticipantAction::Update { context, alarm } => TwoPhaseCommitAction::Update {
                context: context.into_unified_context(),
                alarm,
            },
            ParticipantAction::SendMessage(p, m) => TwoPhaseCommitAction::SendMessage(p, m),
            ParticipantAction::Notify(n) => TwoPhaseCommitAction::Notify(
                n.into_unified_notification(),
            ),
        }
    }
}

} // verus!
