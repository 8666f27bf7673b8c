//! The actions the coordinator algorithm returns.

use vstd::prelude::*;

use crate::algorithm::Value;
use crate::process::Process;
use crate::time::Time;

use super::coordinator_context::CoordinatorContext;
use super::unified_action::TwoPhaseCommitAction;
use super::unified_action::TwoPhaseCommitActionNotification;
use super::unified_context::TwoPhaseCommitContext;
use super::unified_message::TwoPhaseCommitMessage;
use super::unified_role::TwoPhaseCommitRoleContextView;

verus! {

/// An output of the coordinator algorithm.
#[derive(Debug, PartialEq, Eq)]
pub enum CoordinatorAction<P, V, T> {
    /// Persist the given context durably and reprogram the timer.
    Update { context: TwoPhaseCommitContext<P, T, CoordinatorContext<P, T>>, alarm: Option<T> },
    /// Send the message to the process, best-effort.
    SendMessage(P, TwoPhaseCommitMessage<V>),
    /// Tell the embedder something it must act on or may want to know.
    Notify(CoordinatorActionNotification),
}

/// What a [`CoordinatorAction::Notify`] tells the embedder.
#[derive(Debug, PartialEq, Eq)]
pub enum CoordinatorActionNotification {
    /// The engine is idle: the embedder should provide the next value to
    /// agree on through a start event.
    RequestForStart(),
    /// The coordinator asks its embedder for the local vote.
    RequestForVote(),
    /// The current epoch was decided commit.
    Commit(),
    /// The current epoch was decided abort.
    Abort(),
    /// A delivered message was dropped; the payload says why.
    MessageDropped(String),
}

/// Whether the unified notification is the lifting of the coordinator
/// notification.
pub open spec fn lifts_coordinator_notification<V>(
    n: CoordinatorActionNotification,
    u: TwoPhaseCommitActionNotification<V>,
) -> bool {
    match n {
        CoordinatorActionNotification::RequestForStart() => u
            == TwoPhaseCommitActionNotification::<V>::RequestForStart(),
        CoordinatorActionNotification::RequestForVote() => u
            == TwoPhaseCommitActionNotification::<V>::CoordinatorRequestForVote(),
        CoordinatorActionNotification::Commit() => u
            == TwoPhaseCommitActionNotification::<V>::Commit(),
        CoordinatorActionNotification::Abort() => u
            == TwoPhaseCommitActionNotification::<V>::Abort(),
        CoordinatorActionNotification::MessageDropped(s) => u
            == TwoPhaseCommitActionNotification::<V>::MessageDropped(s),
    }
}

/// Whether the unified action is the lifting of the coordinator action: the
/// same message or notification, and for an update the same context wrapped
/// into the unified role space.
pub open spec fn lifts_coordinator_action<P: Process, V: Value, T: Time>(
    a: CoordinatorAction<P, V, T>,
    u: TwoPhaseCommitAction<P, V, T>,
) -> bool {
    match a {
        CoordinatorAction::Update { context, alarm } => u matches TwoPhaseCommitAction::Update {
            context: uc,
            alarm: ua,
        } && uc@ == context@.with_role_context(
            TwoPhaseCommitRoleContextView::Coordinator(context@.role_context),
        ) && ua == alarm,
        CoordinatorAction::SendMessage(p, m) => u == TwoPhaseCommitAction::<P, V, T>::SendMessage(
            p,
            m,
        ),
        CoordinatorAction::Notify(n) => u matches TwoPhaseCommitAction::Notify(un)
            && lifts_coordinator_notification(n, un),
    }
}

impl CoordinatorActionNotification {
    /// Lifts the notification into the unified notification space.
    pub fn into_unified_notification<V: Value>(self) -> (r: TwoPhaseCommitActionNotification<V>)
        ensures
            lifts_coordinator_notification(self, r),
    {
        match self {
            CoordinatorActionNotification::RequestForStart() => (
            TwoPhaseCommitActionNotification::RequestForStart()),
            CoordinatorActionNotification::RequestForVote() => (
            TwoPhaseCommitActionNotification::CoordinatorRequestForVote()),
            CoordinatorActionNotification::Commit() => TwoPhaseCommitActionNotification::Commit(),
            CoordinatorActionNotification::Abort() => TwoPhaseCommitActionNotification::Abort(),
            CoordinatorActionNotification::MessageDropped(s) => (
            TwoPhaseCommitActionNotification::MessageDropped(s)),
        }
    }
}

impl<P: Process, V: Value, T: Time> CoordinatorAction<P, V, T> {
    /// Lifts the coordinator action into the unified action space.
    pub fn into_unified_action(self) -> (r: TwoPhaseCommitAction<P, V, T>)
        ensures
            lifts_coordinator_action(self, r),
    {
        match self {
            CoordinatorAction::Update { context, alarm } => TwoPhaseCommitAction::Update {
                context: context.into_unified_context(),
                alarm,
            },
            CoordinatorAction::SendMessage(p, m) => TwoPhaseCommitAction::SendMessage(p, m),
            CoordinatorAction::Notify(n) => TwoPhaseCommitAction::Notify(
                n.into_unified_notification(),
            ),
        }
    }
}

} // verus!
