//! The protocol's safety laws, proved once and for all against the engines'
//! contracts.
//!
//! Each public proof function states one law of the two-phase-commit engine
//! over the specification functions that the engines' `ensures` clauses use,
//! so the laws hold of every action list the engines can return.

use vstd::prelude::*;

use crate::algorithm::Value;
use crate::error::AlgorithmError;
use crate::process::Process;
use crate::time::Time;

use super::coordinator_action::CoordinatorAction;
use super::coordinator_algorithm::abort_actions;
use super::coordinator_algorithm::abort_message_sends;
use super::coordinator_algorithm::ack_alarm_outcome;
use super::coordinator_algorithm::advance_epoch_view;
use super::coordinator_algorithm::all_voted;
use super::coordinator_algorithm::commit_actions;
use super::coordinator_algorithm::coordinator_event_ensures;
use super::coordinator_algorithm::decision_answer;
use super::coordinator_algorithm::first_participant_match;
use super::coordinator_algorithm::is_coordinator_update;
use super::coordinator_algorithm::no_participant_match;
use super::coordinator_algorithm::some_voted_no;
use super::coordinator_algorithm::start_actions;
use super::coordinator_algorithm::voting_alarm_outcome;
use super::coordinator_algorithm::wait_for_ack_view;
use super::coordinator_context::CoordinatorContextView;
use super::coordinator_context::CoordinatorState;
use super::coordinator_context::Participant;
use super::coordinator_event::CoordinatorEvent;
use super::coordinator_message::CoordinatorMessage;
use super::participant_action::ParticipantAction;
use super::participant_action::ParticipantActionNotification;
use super::participant_algorithm::decision_request_resend;
use super::participant_algorithm::decision_request_sends;
use super::participant_algorithm::participant_decision_request_actions;
use super::participant_algorithm::participant_event_ensures;
use super::participant_algorithm::voted_alarm_outcome;
use super::participant_context::ParticipantContextView;
use super::participant_event::ParticipantEvent;
use super::participant_message::ParticipantMessage;
use super::unified_action::TwoPhaseCommitAction;
use super::unified_algorithm::lifts_coordinator_result;
use super::unified_algorithm::lifts_participant_result;
use super::unified_algorithm::unified_event_ensures;
use super::unified_context::TwoPhaseCommitContext;
use super::unified_event::TwoPhaseCommitEvent;
use super::unified_role::TwoPhaseCommitRoleContextView;
use super::coordinator_action::lifts_coordinator_action;
use super::participant_action::lifts_participant_action;
use super::unified_message::TwoPhaseCommitMessage;
use super::coordinator_action::CoordinatorActionNotification;
use super::coordinator_algorithm::coordinator_decision_request_actions;
use super::unified_context::TwoPhaseCommitContextView;
use super::Epoch;

verus! {

/// Whether every participant has voted yes.
pub open spec fn all_yes<P>(ps: Seq<Participant<P>>) -> bool {
    forall|i: int| 0 <= i < ps.len() ==> ps[i].vote == Some(true)
}

/// Well-formedness of a coordinator context: the recorded last commit epoch
/// never lies past the current epoch; while the current epoch is undecided
/// it is not recorded as committed; and the coordinator awaits its own vote
/// only once every participant has voted yes.
///
/// The builder's seeds satisfy it, and
/// [`lemma_coordinator_preserves_well_formed`] shows the engine maintains it
/// across every update it emits.
pub open spec fn coordinator_well_formed<P: Process, T: Time>(
    ctx: TwoPhaseCommitContextView<P, T, CoordinatorContextView<P, T>>,
) -> bool {
    &&& (ctx.last_commit_epoch matches Some(l) ==> l <= ctx.epoch)
    &&& ((ctx.role_context.state is Voting || ctx.role_context.state is WaitingForVote
        || ctx.role_context.state is WaitingForStart) ==> ctx.last_commit_epoch != Some(ctx.epoch))
    &&& (ctx.role_context.state is WaitingForVote ==> all_yes(ctx.role_context.participants))
}

/// Law (well-formedness at birth): a coordinator context seeded idle, with
/// no commit on record, is well formed; together with
/// [`lemma_coordinator_preserves_well_formed`] this gives well-formedness of
/// every context a run starting from such a seed can store.
pub proof fn lemma_idle_seed_well_formed<P: Process, T: Time>(
    ctx: TwoPhaseCommitContextView<P, T, CoordinatorContextView<P, T>>,
)
    requires
        ctx.last_commit_epoch is None,
        ctx.role_context.state is WaitingForStart,
    ensures
        coordinator_well_formed(ctx),
{
}

/// How the context carried by any update action relates to the context the
/// event was processed with: the peers and the armed-alarm record never
/// change; the epoch either stays or advances by exactly one into the idle
/// state; the last commit epoch changes only when the current epoch's commit
/// is recorded; a commit is recorded only when the coordinator had collected
/// yes votes from every participant and was awaiting its own.
pub open spec fn coordinator_update_successor<P: Process, V: Value, T: Time>(
    event: CoordinatorEvent<P, V>,
    ctx: TwoPhaseCommitContextView<P, T, CoordinatorContextView<P, T>>,
    c: TwoPhaseCommitContextView<P, T, CoordinatorContextView<P, T>>,
) -> bool {
    &&& c.coordinator == ctx.coordinator
    &&& c.this_process == ctx.this_process
    &&& c.alarm == ctx.alarm
    &&& (c.epoch == ctx.epoch || c.epoch == ctx.epoch + 1)
    &&& (c.epoch == ctx.epoch + 1 ==> {
        &&& c.role_context.state is WaitingForStart
        &&& (if ctx.role_context.state is Commit {
            c.last_commit_epoch == Some(ctx.epoch)
        } else {
            c.last_commit_epoch == ctx.last_commit_epoch
        })
    })
    &&& (c.epoch == ctx.epoch ==> {
        ||| c.last_commit_epoch == ctx.last_commit_epoch
        ||| (ctx.role_context.state is WaitingForVote && c.last_commit_epoch == Some(ctx.epoch) && (
        c.role_context.state is Commit || c.role_context.state is WaitingForDecisionAck))
    })
    &&& (c.role_context.state is Commit ==> {
        &&& ctx.role_context.state is WaitingForVote
        &&& c.role_context.participants == ctx.role_context.participants
        &&& c.epoch == ctx.epoch
        &&& c.last_commit_epoch == Some(ctx.epoch)
    })
    &&& (c.role_context.state is WaitingForVote ==> {
        &&& c.epoch == ctx.epoch
        &&& c.last_commit_epoch == ctx.last_commit_epoch
        &&& (ctx.role_context.state is Voting || ctx.role_context.state is WaitingForVote)
        &&& (all_yes(c.role_context.participants) || c == ctx)
    })
    &&& (c.role_context.state is Voting ==> {
        &&& c.epoch == ctx.epoch
        &&& c.last_commit_epoch == ctx.last_commit_epoch
        &&& (ctx.role_context.state is Voting || event is Start)
    })
    &&& (c.role_context.state is WaitingForStart && c.epoch == ctx.epoch ==> c == ctx)
}

/// Whether, when the action is an update, its context is a successor of the
/// processed context.
pub open spec fn is_successor_update<P: Process, V: Value, T: Time>(
    event: CoordinatorEvent<P, V>,
    ctx: TwoPhaseCommitContextView<P, T, CoordinatorContextView<P, T>>,
    a: CoordinatorAction<P, V, T>,
) -> bool {
    a matches CoordinatorAction::Update { context: c, .. } ==> coordinator_update_successor(
        event,
        ctx,
        c@,
    )
}

/// No abort message is an update action.
proof fn lemma_abort_message_sends_are_sends<P: Process, V: Value, T: Time>(
    ps: Seq<Participant<P>>,
    epoch: Epoch,
)
    ensures
        forall|j: int|
            0 <= j < abort_message_sends::<P, V, T>(ps, epoch).len() ==> !((
            #[trigger] abort_message_sends::<P, V, T>(ps, epoch)[j]) is Update),
    decreases ps.len(),
{
    if ps.len() > 0 {
        lemma_abort_message_sends_are_sends::<P, V, T>(ps.drop_last(), epoch);
    }
}

/// Every update among the actions that carry out an abort decision is a
/// successor of the processed context, provided the abort started from a
/// context that differs from it at most in the participant records.
proof fn lemma_abort_actions_updates<P: Process, V: Value, T: Time>(
    event: CoordinatorEvent<P, V>,
    ctx: TwoPhaseCommitContextView<P, T, CoordinatorContextView<P, T>>,
    mid: TwoPhaseCommitContextView<P, T, CoordinatorContextView<P, T>>,
    now: T,
    actions: Seq<CoordinatorAction<P, V, T>>,
)
    requires
        abort_actions(mid, now, actions),
        mid.epoch == ctx.epoch,
        mid.last_commit_epoch == ctx.last_commit_epoch,
        mid.coordinator == ctx.coordinator,
        mid.this_process == ctx.this_process,
        mid.alarm == ctx.alarm,
    ensures
        forall|i: int| 0 <= i < actions.len() ==> is_successor_update(event, ctx, #[trigger] actions[i]),
{
    let aborted = mid.with_state(CoordinatorState::Abort);
    let sends = abort_message_sends::<P, V, T>(mid.role_context.participants, mid.epoch);
    let k = sends.len() as int;
    lemma_abort_message_sends_are_sends::<P, V, T>(mid.role_context.participants, mid.epoch);
    assert forall|i: int| 0 <= i < actions.len() implies is_successor_update(
        event,
        ctx,
        actions[i],
    ) by {
        if 1 <= i < k + 1 {
            assert(actions.subrange(1, k + 1)[i - 1] == actions[i]);
            assert(!(sends[i - 1] is Update));
        } else if i == 0 {
            assert(is_coordinator_update(actions[0], aborted, None));
        } else if i == k + 1 {
            assert(!(actions[i] is Update));
        } else {
            assert(is_coordinator_update(
                actions[i],
                wait_for_ack_view(aborted, now),
                Some(now.spec_plus_seconds(super::coordinator_algorithm::ACK_TIMEOUT_SECONDS)),
            ));
        }
    }
}

/// Law: however an event is processed, the context carried by each update
/// action in the result is a successor, in the sense of
/// [`coordinator_update_successor`], of the context the event was processed
/// with.
pub proof fn lemma_coordinator_updates<P: Process, V: Value, T: Time>(
    event: CoordinatorEvent<P, V>,
    ctx: TwoPhaseCommitContextView<P, T, CoordinatorContextView<P, T>>,
    r: Result<Vec<CoordinatorAction<P, V, T>>, AlgorithmError>,
)
    requires
        coordinator_event_ensures(event, ctx, r),
    ensures
        (r matches Ok(v) ==> forall|i: int|
            0 <= i < v@.len() ==> is_successor_update(event, ctx, #[trigger] v@[i])),
{
    match r {
        Err(_) => {},
        Ok(v) => {
            let ps = ctx.role_context.participants;
            match event {
                CoordinatorEvent::Start(value) => {
                    let now = choose|now: T| #[trigger] start_actions(ctx, value, now, v@);
                    let n = ps.len() as int;
                    assert forall|i: int| 0 <= i < v@.len() implies is_successor_update(
                        event,
                        ctx,
                        v@[i],
                    ) by {
                        if i == 0 {
                            assert(is_coordinator_update(
                                v@[0],
                                ctx.with_state(CoordinatorState::Voting { vote_timeout_start: now }),
                                Some(
                                    now.spec_plus_seconds(
                                        super::coordinator_algorithm::VOTE_TIMEOUT_SECONDS,
                                    ),
                                ),
                            ));
                        } else {
                            assert(v@[1 + (i - 1)] == CoordinatorAction::<P, V, T>::SendMessage(
                                ps[i - 1].process,
                                super::unified_message::TwoPhaseCommitMessage::VoteRequest(
                                    ctx.epoch,
                                    value,
                                ),
                            ));
                        }
                    }
                },
                CoordinatorEvent::Vote(vote) => {
                    if ctx.role_context.state is WaitingForVote {
                        if vote {
                            let now = choose|now: T| #[trigger] commit_actions(ctx, now, v@);
                            let committed = ctx.with_last_commit_epoch(Some(ctx.epoch)).with_state(
                                CoordinatorState::Commit,
                            );
                            let n = ps.len() as int;
                            assert forall|i: int| 0 <= i < v@.len() implies is_successor_update(
                                event,
                                ctx,
                                v@[i],
                            ) by {
                                if i == 0 {
                                    assert(is_coordinator_update(v@[0], committed, None));
                                } else if 1 <= i < n + 1 {
                                    assert(v@[1 + (i - 1)] == CoordinatorAction::<
                                        P,
                                        V,
                                        T,
                                    >::SendMessage(
                                        ps[i - 1].process,
                                        super::unified_message::TwoPhaseCommitMessage::Commit(
                                            ctx.epoch,
                                        ),
                                    ));
                                } else if i == n + 2 {
                                    assert(is_coordinator_update(
                                        v@[i],
                                        wait_for_ack_view(committed, now),
                                        Some(
                                            now.spec_plus_seconds(
                                                super::coordinator_algorithm::ACK_TIMEOUT_SECONDS,
                                            ),
                                        ),
                                    ));
                                }
                            }
                        } else {
                            let now = choose|now: T| #[trigger] abort_actions(ctx, now, v@);
                            lemma_abort_actions_updates(event, ctx, ctx, now, v@);
                        }
                    }
                },
                CoordinatorEvent::Alarm() => {
                    match ctx.role_context.state {
                        CoordinatorState::Voting { vote_timeout_start } => {
                            let now1 = choose|now1: T|
                                #[trigger] voting_alarm_outcome(ctx, vote_timeout_start, now1, r);
                            if super::coordinator_algorithm::vote_timeout_expired(
                                vote_timeout_start,
                                now1,
                            ) {
                                let now2 = choose|now2: T| #[trigger] abort_actions(ctx, now2, v@);
                                lemma_abort_actions_updates(event, ctx, ctx, now2, v@);
                            }
                        },
                        CoordinatorState::WaitingForStart => {
                            assert(is_coordinator_update(v@[1], ctx, None));
                        },
                        CoordinatorState::WaitingForVote => {
                            assert(is_coordinator_update(v@[1], ctx, None));
                        },
                        CoordinatorState::WaitingForDecisionAck { ack_timeout_start } => {
                            let now1 = choose|now1: T|
                                #[trigger] ack_alarm_outcome(ctx, ack_timeout_start, now1, r);
                            if super::coordinator_algorithm::ack_timeout_expired(
                                ack_timeout_start,
                                now1,
                            ) {
                                assert(is_coordinator_update(v@[0], advance_epoch_view(ctx), None));
                            }
                        },
                        CoordinatorState::Commit => {
                            assert(is_coordinator_update(v@[0], advance_epoch_view(ctx), None));
                        },
                        CoordinatorState::Abort => {
                            assert(is_coordinator_update(v@[0], advance_epoch_view(ctx), None));
                        },
                    }
                },
                CoordinatorEvent::Deliver(p, CoordinatorMessage::VoteResponse(e, vote)) => {
                    if !no_participant_match(ps, p) && e == ctx.epoch && (
                    ctx.role_context.state matches CoordinatorState::Voting { .. }) {
                        let i = first_participant_match(ps, p);
                        if !(ps[i].vote is Some) {
                            let ps1 = ps.update(
                                i,
                                Participant {
                                    process: ps[i].process,
                                    vote: Some(vote),
                                    decision_ack: ps[i].decision_ack,
                                },
                            );
                            let ctx1 = ctx.with_participants(ps1);
                            assert(is_coordinator_update(v@[0], ctx1, None));
                            if all_voted(ps1) {
                                if some_voted_no(ps1) {
                                    let now = choose|now: T|
                                        #[trigger] abort_actions(ctx1, now, v@.skip(1));
                                    lemma_abort_actions_updates(event, ctx, ctx1, now, v@.skip(1));
                                    assert forall|j: int|
                                        0 <= j < v@.len() implies is_successor_update(
                                        event,
                                        ctx,
                                        v@[j],
                                    ) by {
                                        if j >= 1 {
                                            assert(v@.skip(1)[j - 1] == v@[j]);
                                        }
                                    }
                                } else {
                                    assert(all_yes(ps1)) by {
                                        assert forall|j: int|
                                            0 <= j < ps1.len() implies ps1[j].vote == Some(
                                            true,
                                        ) by {
                                            if ps1[j].vote != Some(true) {
                                                assert(ps1[j].vote is Some);
                                                assert(ps1[j].vote == Some(false));
                                            }
                                        }
                                    }
                                    assert(is_coordinator_update(
                                        v@[1],
                                        ctx1.with_state(CoordinatorState::WaitingForVote),
                                        None,
                                    ));
                                }
                            }
                        }
                    }
                },
                CoordinatorEvent::Deliver(p, CoordinatorMessage::DecisionRequest(e)) => {
                    assert forall|i: int| 0 <= i < v@.len() implies is_successor_update(
                        event,
                        ctx,
                        v@[i],
                    ) by {
                        assert(!(v@[i] is Update));
                    }
                },
                CoordinatorEvent::Deliver(p, CoordinatorMessage::DecisionAck(e)) => {
                    if !no_participant_match(ps, p) && e == ctx.epoch && (
                    ctx.role_context.state matches CoordinatorState::WaitingForDecisionAck {
                        ..
                    }) {
                        let i = first_participant_match(ps, p);
                        if !ps[i].decision_ack {
                            let ps1 = ps.update(
                                i,
                                Participant {
                                    process: ps[i].process,
                                    vote: ps[i].vote,
                                    decision_ack: true,
                                },
                            );
                            let ctx1 = ctx.with_participants(ps1);
                            if super::coordinator_algorithm::all_acked(ps1) && ctx.epoch
                                < Epoch::MAX {
                                assert(is_coordinator_update(v@[0], ctx1, None));
                                assert(is_coordinator_update(
                                    v@.skip(1)[0],
                                    advance_epoch_view(ctx1),
                                    None,
                                ));
                                assert(v@.skip(1)[0] == v@[1]);
                                assert(!(v@.skip(1)[1] is Update));
                                assert(v@.skip(1)[1] == v@[2]);
                            } else if !super::coordinator_algorithm::all_acked(ps1) {
                                assert(is_coordinator_update(v@[0], ctx1, None));
                            }
                        }
                    }
                },
            }
        },
    }
}

/// Law (monotone epoch): the epoch recorded by an update action either
/// stays or increases by exactly one, the latter exactly on an epoch
/// advance, which returns the engine to the idle state; it never decreases.
pub proof fn lemma_coordinator_epoch_monotone<P: Process, V: Value, T: Time>(
    event: CoordinatorEvent<P, V>,
    ctx: TwoPhaseCommitContextView<P, T, CoordinatorContextView<P, T>>,
    r: Result<Vec<CoordinatorAction<P, V, T>>, AlgorithmError>,
)
    requires
        coordinator_event_ensures(event, ctx, r),
    ensures
        (r matches Ok(v) ==> forall|i: int|
            0 <= i < v@.len() ==> ((#[trigger] v@[i]) matches CoordinatorAction::Update {
                context: c,
                ..
            } ==> (c@.epoch == ctx.epoch || (c@.epoch == ctx.epoch + 1
                && c@.role_context.state is WaitingForStart)))),
{
    lemma_coordinator_updates(event, ctx, r);
}

/// Law (last commit epoch): an update action that advances the epoch
/// records the prior epoch as the last commit epoch exactly when the prior
/// state had decided commit; when the prior state had decided abort, the
/// last commit epoch is unchanged.
pub proof fn lemma_advance_sets_last_commit_epoch<P: Process, V: Value, T: Time>(
    event: CoordinatorEvent<P, V>,
    ctx: TwoPhaseCommitContextView<P, T, CoordinatorContextView<P, T>>,
    r: Result<Vec<CoordinatorAction<P, V, T>>, AlgorithmError>,
)
    requires
        coordinator_event_ensures(event, ctx, r),
    ensures
        (r matches Ok(v) ==> forall|i: int|
            0 <= i < v@.len() ==> ((#[trigger] v@[i]) matches CoordinatorAction::Update {
                context: c,
                ..
            } ==> (c@.epoch == ctx.epoch + 1 ==> {
                &&& (ctx.role_context.state is Commit ==> c@.last_commit_epoch == Some(ctx.epoch))
                &&& (ctx.role_context.state is Abort ==> c@.last_commit_epoch
                    == ctx.last_commit_epoch)
            }))),
{
    lemma_coordinator_updates(event, ctx, r);
}

/// Law (unanimity behind commit): an update action that enters the commit
/// state can only arise while the coordinator was awaiting its own vote, and
/// carries a participant list in which every participant has voted yes.
pub proof fn lemma_commit_update_requires_unanimous_yes<P: Process, V: Value, T: Time>(
    event: CoordinatorEvent<P, V>,
    ctx: TwoPhaseCommitContextView<P, T, CoordinatorContextView<P, T>>,
    r: Result<Vec<CoordinatorAction<P, V, T>>, AlgorithmError>,
)
    requires
        coordinator_well_formed(ctx),
        coordinator_event_ensures(event, ctx, r),
    ensures
        (r matches Ok(v) ==> forall|i: int|
            0 <= i < v@.len() ==> ((#[trigger] v@[i]) matches CoordinatorAction::Update {
                context: c,
                ..
            } ==> (c@.role_context.state is Commit ==> {
                &&& ctx.role_context.state is WaitingForVote
                &&& all_yes(c@.role_context.participants)
            }))),
{
    lemma_coordinator_updates(event, ctx, r);
}

/// Law (no decision flip): once the engine's record answers a decision
/// request about some epoch with commit, no context it ever stores answers
/// that epoch with abort, and the other way round. The record may only
/// forget an answer (when the epoch falls behind a later commit), never
/// contradict it.
pub proof fn lemma_coordinator_no_decision_flip<P: Process, V: Value, T: Time>(
    event: CoordinatorEvent<P, V>,
    ctx: TwoPhaseCommitContextView<P, T, CoordinatorContextView<P, T>>,
    r: Result<Vec<CoordinatorAction<P, V, T>>, AlgorithmError>,
    e: Epoch,
)
    requires
        coordinator_well_formed(ctx),
        coordinator_event_ensures(event, ctx, r),
    ensures
        (r matches Ok(v) ==> forall|i: int|
            0 <= i < v@.len() ==> ((#[trigger] v@[i]) matches CoordinatorAction::Update {
                context: c,
                ..
            } ==> {
                &&& (decision_answer(ctx.epoch, ctx.last_commit_epoch, e) is Commit ==> !(
                decision_answer(c@.epoch, c@.last_commit_epoch, e) is Abort))
                &&& (decision_answer(ctx.epoch, ctx.last_commit_epoch, e) is Abort ==> !(
                decision_answer(c@.epoch, c@.last_commit_epoch, e) is Commit))
            })),
{
    lemma_coordinator_updates(event, ctx, r);
    match r {
        Err(_) => {},
        Ok(v) => {
            assert forall|i: int| 0 <= i < v@.len() implies ((#[trigger] v@[i])
                matches CoordinatorAction::Update { context: c, .. } ==> {
                &&& (decision_answer(ctx.epoch, ctx.last_commit_epoch, e) is Commit ==> !(
                decision_answer(c@.epoch, c@.last_commit_epoch, e) is Abort))
                &&& (decision_answer(ctx.epoch, ctx.last_commit_epoch, e) is Abort ==> !(
                decision_answer(c@.epoch, c@.last_commit_epoch, e) is Commit))
            }) by {
                match v@[i] {
                    CoordinatorAction::Update { context: c, .. } => {
                        assert(coordinator_update_successor(event, ctx, c@));
                        if c@.epoch == ctx.epoch {
                            if c@.last_commit_epoch != ctx.last_commit_epoch {
                                assert(ctx.role_context.state is WaitingForVote);
                                assert(ctx.last_commit_epoch != Some(ctx.epoch));
                            }
                        }
                    },
                    _ => {},
                }
            }
        },
    }
}

/// Law (well-formedness preserved): processing any event keeps every stored
/// context well formed. The one input left out is a start event arriving
/// while the current epoch's commit is still being acknowledged, which is
/// embedder misuse the engine does not reject.
pub proof fn lemma_coordinator_preserves_well_formed<P: Process, V: Value, T: Time>(
    event: CoordinatorEvent<P, V>,
    ctx: TwoPhaseCommitContextView<P, T, CoordinatorContextView<P, T>>,
    r: Result<Vec<CoordinatorAction<P, V, T>>, AlgorithmError>,
)
    requires
        coordinator_well_formed(ctx),
        coordinator_event_ensures(event, ctx, r),
        event is Start ==> ctx.last_commit_epoch != Some(ctx.epoch),
    ensures
        (r matches Ok(v) ==> forall|i: int|
            0 <= i < v@.len() ==> ((#[trigger] v@[i]) matches CoordinatorAction::Update {
                context: c,
                ..
            } ==> coordinator_well_formed(c@))),
{
    lemma_coordinator_updates(event, ctx, r);
    match r {
        Err(_) => {},
        Ok(v) => {
            assert forall|i: int| 0 <= i < v@.len() implies ((#[trigger] v@[i])
                matches CoordinatorAction::Update { context: c, .. }
                ==> coordinator_well_formed(c@)) by {
                match v@[i] {
                    CoordinatorAction::Update { context: c, .. } => {
                        assert(coordinator_update_successor(event, ctx, c@));
                    },
                    _ => {},
                }
            }
        },
    }
}

/// Whether the action sends a commit announcement for the given epoch.
pub open spec fn is_commit_send<P: Process, V: Value, T: Time>(
    a: CoordinatorAction<P, V, T>,
    e: Epoch,
) -> bool {
    a matches CoordinatorAction::SendMessage(_, m) && m == TwoPhaseCommitMessage::<V>::Commit(e)
}

/// Whether the action sends an abort announcement for the given epoch.
pub open spec fn is_abort_send<P: Process, V: Value, T: Time>(
    a: CoordinatorAction<P, V, T>,
    e: Epoch,
) -> bool {
    a matches CoordinatorAction::SendMessage(_, m) && m == TwoPhaseCommitMessage::<V>::Abort(e)
}

/// Whether some earlier action in the list is an update whose context has
/// decided commit.
pub open spec fn commit_recorded_before<P: Process, V: Value, T: Time>(
    v: Seq<CoordinatorAction<P, V, T>>,
    i: int,
) -> bool {
    exists|j: int|
        0 <= j < i && ((#[trigger] v[j]) matches CoordinatorAction::Update { context: c, .. }
            && c@.role_context.state is Commit)
}

/// Whether some earlier action in the list is an update whose context has
/// decided abort.
pub open spec fn abort_recorded_before<P: Process, V: Value, T: Time>(
    v: Seq<CoordinatorAction<P, V, T>>,
    i: int,
) -> bool {
    exists|j: int|
        0 <= j < i && ((#[trigger] v[j]) matches CoordinatorAction::Update { context: c, .. }
            && c@.role_context.state is Abort)
}

/// Every abort message names the given epoch and is a send, never an update.
proof fn lemma_abort_message_sends_shape<P: Process, V: Value, T: Time>(
    ps: Seq<Participant<P>>,
    epoch: Epoch,
)
    ensures
        forall|j: int|
            0 <= j < abort_message_sends::<P, V, T>(ps, epoch).len() ==> ((
            #[trigger] abort_message_sends::<P, V, T>(ps, epoch)[j])
                matches CoordinatorAction::SendMessage(_, m) && m == TwoPhaseCommitMessage::<
                V,
            >::Abort(epoch)),
    decreases ps.len(),
{
    if ps.len() > 0 {
        lemma_abort_message_sends_shape::<P, V, T>(ps.drop_last(), epoch);
    }
}

/// In the actions that carry out an abort decision, the decision is recorded
/// by the first action; no commit is announced, and every abort announcement
/// for the epoch comes after the record.
proof fn lemma_abort_actions_ordering<P: Process, V: Value, T: Time>(
    mid: TwoPhaseCommitContextView<P, T, CoordinatorContextView<P, T>>,
    now: T,
    actions: Seq<CoordinatorAction<P, V, T>>,
)
    requires
        abort_actions(mid, now, actions),
    ensures
        actions[0] matches CoordinatorAction::Update { context: c, .. } && c@.role_context.state
            is Abort,
        forall|i: int| 0 <= i < actions.len() ==> !is_commit_send(#[trigger] actions[i], mid.epoch),
        forall|i: int|
            0 <= i < actions.len() ==> (is_abort_send(#[trigger] actions[i], mid.epoch) ==> i >= 1),
{
    let aborted = mid.with_state(CoordinatorState::Abort);
    let sends = abort_message_sends::<P, V, T>(mid.role_context.participants, mid.epoch);
    let k = sends.len() as int;
    lemma_abort_message_sends_shape::<P, V, T>(mid.role_context.participants, mid.epoch);
    assert(is_coordinator_update(actions[0], aborted, None));
    assert forall|i: int| 0 <= i < actions.len() implies !is_commit_send(actions[i], mid.epoch)
        && (is_abort_send(actions[i], mid.epoch) ==> i >= 1) by {
        if 1 <= i < k + 1 {
            assert(actions.subrange(1, k + 1)[i - 1] == actions[i]);
        } else if i == k + 2 {
            assert(is_coordinator_update(
                actions[i],
                wait_for_ack_view(aborted, now),
                Some(now.spec_plus_seconds(super::coordinator_algorithm::ACK_TIMEOUT_SECONDS)),
            ));
        }
    }
}

/// Law (durable decision before announcement): in every returned action
/// list, an announcement of the current epoch's decision comes after an
/// update that records that decision. (An announcement of an already
/// recorded decision, as given by a decision-request answer, needs no new
/// record: the condition on the last commit epoch excludes exactly that
/// case.)
pub proof fn lemma_decision_send_ordering<P: Process, V: Value, T: Time>(
    event: CoordinatorEvent<P, V>,
    ctx: TwoPhaseCommitContextView<P, T, CoordinatorContextView<P, T>>,
    r: Result<Vec<CoordinatorAction<P, V, T>>, AlgorithmError>,
)
    requires
        coordinator_event_ensures(event, ctx, r),
    ensures
        (r matches Ok(v) ==> forall|i: int|
            0 <= i < v@.len() ==> {
                &&& ((is_commit_send(#[trigger] v@[i], ctx.epoch) && ctx.last_commit_epoch != Some(
                    ctx.epoch,
                )) ==> commit_recorded_before(v@, i))
                &&& (is_abort_send(v@[i], ctx.epoch) ==> abort_recorded_before(v@, i))
            }),
{
    match r {
        Err(_) => {},
        Ok(v) => {
            let ps = ctx.role_context.participants;
            assert forall|i: int| 0 <= i < v@.len() implies {
                &&& ((is_commit_send(v@[i], ctx.epoch) && ctx.last_commit_epoch != Some(ctx.epoch))
                    ==> commit_recorded_before(v@, i))
                &&& (is_abort_send(v@[i], ctx.epoch) ==> abort_recorded_before(v@, i))
            } by {
                match event {
                    CoordinatorEvent::Start(value) => {
                        let now = choose|now: T| #[trigger] start_actions(ctx, value, now, v@);
                        let n = ps.len() as int;
                        if i == 0 {
                            assert(is_coordinator_update(
                                v@[0],
                                ctx.with_state(CoordinatorState::Voting { vote_timeout_start: now }),
                                Some(
                                    now.spec_plus_seconds(
                                        super::coordinator_algorithm::VOTE_TIMEOUT_SECONDS,
                                    ),
                                ),
                            ));
                        } else {
                            assert(v@[1 + (i - 1)] == CoordinatorAction::<P, V, T>::SendMessage(
                                ps[i - 1].process,
                                TwoPhaseCommitMessage::VoteRequest(ctx.epoch, value),
                            ));
                        }
                    },
                    CoordinatorEvent::Vote(vote) => {
                        if ctx.role_context.state is WaitingForVote {
                            if vote {
                                let now = choose|now: T| #[trigger] commit_actions(ctx, now, v@);
                                let committed = ctx.with_last_commit_epoch(
                                    Some(ctx.epoch),
                                ).with_state(CoordinatorState::Commit);
                                let n = ps.len() as int;
                                if is_commit_send(v@[i], ctx.epoch) || is_abort_send(
                                    v@[i],
                                    ctx.epoch,
                                ) {
                                    if 1 <= i < n + 1 {
                                        assert(v@[1 + (i - 1)] == CoordinatorAction::<
                                            P,
                                            V,
                                            T,
                                        >::SendMessage(
                                            ps[i - 1].process,
                                            TwoPhaseCommitMessage::Commit(ctx.epoch),
                                        ));
                                        assert(v@[0] matches CoordinatorAction::Update {
                                            context: c,
                                            ..
                                        } && c@.role_context.state is Commit) by {
                                            assert(is_coordinator_update(v@[0], committed, None));
                                        }
                                        assert(commit_recorded_before(v@, i));
                                    } else if i == 0 {
                                        assert(is_coordinator_update(v@[0], committed, None));
                                    } else if i == n + 2 {
                                        assert(is_coordinator_update(
                                            v@[i],
                                            wait_for_ack_view(committed, now),
                                            Some(
                                                now.spec_plus_seconds(
                                                    super::coordinator_algorithm::ACK_TIMEOUT_SECONDS,
                                                ),
                                            ),
                                        ));
                                    }
                                }
                            } else {
                                let now = choose|now: T| #[trigger] abort_actions(ctx, now, v@);
                                lemma_abort_actions_ordering(ctx, now, v@);
                                if is_abort_send(v@[i], ctx.epoch) {
                                    assert(abort_recorded_before(v@, i));
                                }
                            }
                        }
                    },
                    CoordinatorEvent::Alarm() => {
                        match ctx.role_context.state {
                            CoordinatorState::Voting { vote_timeout_start } => {
                                let now1 = choose|now1: T|
                                    #[trigger] voting_alarm_outcome(
                                        ctx,
                                        vote_timeout_start,
                                        now1,
                                        r,
                                    );
                                if super::coordinator_algorithm::vote_timeout_expired(
                                    vote_timeout_start,
                                    now1,
                                ) {
                                    let now2 = choose|now2: T|
                                        #[trigger] abort_actions(ctx, now2, v@);
                                    lemma_abort_actions_ordering(ctx, now2, v@);
                                    if is_abort_send(v@[i], ctx.epoch) {
                                        assert(abort_recorded_before(v@, i));
                                    }
                                }
                            },
                            CoordinatorState::WaitingForStart => {
                                if i == 1 {
                                    assert(is_coordinator_update(v@[1], ctx, None));
                                }
                            },
                            CoordinatorState::WaitingForVote => {
                                if i == 1 {
                                    assert(is_coordinator_update(v@[1], ctx, None));
                                }
                            },
                            CoordinatorState::WaitingForDecisionAck { ack_timeout_start } => {
                                let now1 = choose|now1: T|
                                    #[trigger] ack_alarm_outcome(ctx, ack_timeout_start, now1, r);
                                if super::coordinator_algorithm::ack_timeout_expired(
                                    ack_timeout_start,
                                    now1,
                                ) {
                                    if i == 0 {
                                        assert(is_coordinator_update(
                                            v@[0],
                                            advance_epoch_view(ctx),
                                            None,
                                        ));
                                    }
                                }
                            },
                            CoordinatorState::Commit => {
                                if i == 0 {
                                    assert(is_coordinator_update(
                                        v@[0],
                                        advance_epoch_view(ctx),
                                        None,
                                    ));
                                }
                            },
                            CoordinatorState::Abort => {
                                if i == 0 {
                                    assert(is_coordinator_update(
                                        v@[0],
                                        advance_epoch_view(ctx),
                                        None,
                                    ));
                                }
                            },
                        }
                    },
                    CoordinatorEvent::Deliver(p, CoordinatorMessage::VoteResponse(e, vote)) => {
                        if !no_participant_match(ps, p) && e == ctx.epoch && (
                        ctx.role_context.state matches CoordinatorState::Voting { .. }) {
                            let idx = first_participant_match(ps, p);
                            if !(ps[idx].vote is Some) {
                                let ps1 = ps.update(
                                    idx,
                                    Participant {
                                        process: ps[idx].process,
                                        vote: Some(vote),
                                        decision_ack: ps[idx].decision_ack,
                                    },
                                );
                                let ctx1 = ctx.with_participants(ps1);
                                if all_voted(ps1) && some_voted_no(ps1) {
                                    let now = choose|now: T|
                                        #[trigger] abort_actions(ctx1, now, v@.skip(1));
                                    lemma_abort_actions_ordering(ctx1, now, v@.skip(1));
                                    if i >= 1 {
                                        assert(v@.skip(1)[i - 1] == v@[i]);
                                        if is_abort_send(v@[i], ctx.epoch) {
                                            assert(i - 1 >= 1);
                                            assert(v@.skip(1)[0] == v@[1]);
                                            assert(v@[1] matches CoordinatorAction::Update {
                                                context: c,
                                                ..
                                            } && c@.role_context.state is Abort);
                                            assert(abort_recorded_before(v@, i));
                                        }
                                        if is_commit_send(v@[i], ctx.epoch) {
                                            assert(!is_commit_send(v@.skip(1)[i - 1], ctx1.epoch));
                                        }
                                    } else {
                                        assert(is_coordinator_update(v@[0], ctx1, None));
                                    }
                                } else if all_voted(ps1) {
                                    if i == 0 {
                                        assert(is_coordinator_update(v@[0], ctx1, None));
                                    } else if i == 1 {
                                        assert(is_coordinator_update(
                                            v@[1],
                                            ctx1.with_state(CoordinatorState::WaitingForVote),
                                            None,
                                        ));
                                    }
                                } else {
                                    assert(is_coordinator_update(v@[0], ctx1, None));
                                }
                            }
                        }
                    },
                    CoordinatorEvent::Deliver(p, CoordinatorMessage::DecisionRequest(e)) => {
                        if !no_participant_match(ps, p) {
                            match decision_answer(ctx.epoch, ctx.last_commit_epoch, e) {
                                super::coordinator_algorithm::DecisionAnswer::Commit => {
                                    assert(ctx.last_commit_epoch == Some(e));
                                },
                                super::coordinator_algorithm::DecisionAnswer::Abort => {
                                    assert(e < ctx.epoch);
                                },
                                super::coordinator_algorithm::DecisionAnswer::Unknown => {},
                            }
                        }
                    },
                    CoordinatorEvent::Deliver(p, CoordinatorMessage::DecisionAck(e)) => {
                        if !no_participant_match(ps, p) && e == ctx.epoch && (
                        ctx.role_context.state matches CoordinatorState::WaitingForDecisionAck {
                            ..
                        }) {
                            let idx = first_participant_match(ps, p);
                            if !ps[idx].decision_ack {
                                let ps1 = ps.update(
                                    idx,
                                    Participant {
                                        process: ps[idx].process,
                                        vote: ps[idx].vote,
                                        decision_ack: true,
                                    },
                                );
                                let ctx1 = ctx.with_participants(ps1);
                                if super::coordinator_algorithm::all_acked(ps1) && ctx.epoch
                                    < Epoch::MAX {
                                    if i == 0 {
                                        assert(is_coordinator_update(v@[0], ctx1, None));
                                    } else if i == 1 {
                                        assert(v@.skip(1)[0] == v@[1]);
                                        assert(is_coordinator_update(
                                            v@.skip(1)[0],
                                            advance_epoch_view(ctx1),
                                            None,
                                        ));
                                    } else if i == 2 {
                                        assert(v@.skip(1)[1] == v@[2]);
                                        assert(!(v@.skip(1)[1] is Update));
                                    }
                                } else if !super::coordinator_algorithm::all_acked(ps1) {
                                    assert(is_coordinator_update(v@[0], ctx1, None));
                                }
                            }
                        }
                    },
                }
            }
        },
    }
}

/// The alarm the embedder has armed after applying the action list to a
/// timer that held `initial`: each update's alarm replaces the armed one
/// (`None` clearing it), so only the last update's alarm is in force.
pub open spec fn armed_alarm_after<P, V, T>(
    initial: Option<T>,
    actions: Seq<TwoPhaseCommitAction<P, V, T>>,
) -> Option<T>
    decreases actions.len(),
{
    if actions.len() == 0 {
        initial
    } else {
        match actions.last() {
            TwoPhaseCommitAction::Update { alarm, .. } => alarm,
            _ => armed_alarm_after(initial, actions.drop_last()),
        }
    }
}

/// Law (alarm supersession): applying an update that arms an alarm and then
/// one that carries no alarm leaves no timer armed, whatever was armed
/// before.
pub proof fn lemma_alarm_superseded<P, V, T>(
    initial: Option<T>,
    prefix: Seq<TwoPhaseCommitAction<P, V, T>>,
    c1: super::unified_context::TwoPhaseCommitContext<P, T>,
    t: T,
    c2: super::unified_context::TwoPhaseCommitContext<P, T>,
)
    ensures
        armed_alarm_after(
            initial,
            prefix.push(TwoPhaseCommitAction::Update { context: c1, alarm: Some(t) }).push(
                TwoPhaseCommitAction::Update { context: c2, alarm: None },
            ),
        ) is None,
{
}

/// Whether two actions answer a decision request the same way: the same
/// message to the same process, or notifications that drop the request for
/// reasons that read the same.
pub open spec fn same_decision_request_answer<P: Process, V: Value, T: Time>(
    a: CoordinatorAction<P, V, T>,
    b: CoordinatorAction<P, V, T>,
) -> bool {
    match (a, b) {
        (CoordinatorAction::SendMessage(p1, m1), CoordinatorAction::SendMessage(p2, m2)) => p1 == p2
            && m1 == m2,
        (
            CoordinatorAction::Notify(CoordinatorActionNotification::MessageDropped(s1)),
            CoordinatorAction::Notify(CoordinatorActionNotification::MessageDropped(s2)),
        ) => s1@ == s2@,
        _ => false,
    }
}

/// Law (idempotent decision request, coordinator): replaying the same
/// decision request against the same context yields the same answer, and
/// neither reply updates the context.
pub proof fn lemma_coordinator_decision_request_idempotent<P: Process, V: Value, T: Time>(
    ctx: TwoPhaseCommitContextView<P, T, CoordinatorContextView<P, T>>,
    p: P,
    e: Epoch,
    a1: Seq<CoordinatorAction<P, V, T>>,
    a2: Seq<CoordinatorAction<P, V, T>>,
)
    requires
        coordinator_decision_request_actions(ctx, p, e, a1),
        coordinator_decision_request_actions(ctx, p, e, a2),
    ensures
        a1.len() == 1 && a2.len() == 1,
        !(a1[0] is Update) && !(a2[0] is Update),
        same_decision_request_answer(a1[0], a2[0]),
{
}

/// Whether two participant actions answer a decision request the same way.
pub open spec fn same_participant_decision_request_answer<P: Process, V: Value, T: Time>(
    a: ParticipantAction<P, V, T>,
    b: ParticipantAction<P, V, T>,
) -> bool {
    match (a, b) {
        (ParticipantAction::SendMessage(p1, m1), ParticipantAction::SendMessage(p2, m2)) => p1 == p2
            && m1 == m2,
        (
            ParticipantAction::Notify(ParticipantActionNotification::MessageDropped(s1)),
            ParticipantAction::Notify(ParticipantActionNotification::MessageDropped(s2)),
        ) => s1@ == s2@,
        _ => false,
    }
}

/// Law (idempotent decision request, participant): replaying the same
/// decision request against the same context yields the same answer, and
/// neither reply updates the context.
pub proof fn lemma_participant_decision_request_idempotent<P: Process, V: Value, T: Time>(
    ctx: TwoPhaseCommitContextView<P, T, ParticipantContextView<P, T>>,
    p: P,
    e: Epoch,
    a1: Seq<ParticipantAction<P, V, T>>,
    a2: Seq<ParticipantAction<P, V, T>>,
)
    requires
        participant_decision_request_actions(ctx, p, e, a1),
        participant_decision_request_actions(ctx, p, e, a2),
    ensures
        a1.len() == 1 && a2.len() == 1,
        !(a1[0] is Update) && !(a2[0] is Update),
        same_participant_decision_request_answer(a1[0], a2[0]),
{
}

/// Law (epoch filter, coordinator): a vote response or decision
/// acknowledgement for an epoch other than the context's produces one
/// message-dropped notification and nothing else; in particular, no update
/// touches the context.
pub proof fn lemma_coordinator_epoch_filter<P: Process, V: Value, T: Time>(
    event: CoordinatorEvent<P, V>,
    ctx: TwoPhaseCommitContextView<P, T, CoordinatorContextView<P, T>>,
    r: Result<Vec<CoordinatorAction<P, V, T>>, AlgorithmError>,
)
    requires
        coordinator_event_ensures(event, ctx, r),
        event matches CoordinatorEvent::Deliver(p, m) && (m is VoteResponse || m is DecisionAck) && (
        m matches CoordinatorMessage::VoteResponse(e, _) ==> e != ctx.epoch) && (
        m matches CoordinatorMessage::DecisionAck(e) ==> e != ctx.epoch),
    ensures
        r matches Ok(v) && v@.len() == 1 && v@[0] matches CoordinatorAction::Notify(
            CoordinatorActionNotification::MessageDropped(_),
        ),
{
}

/// Law (epoch filter, participant): a commit or abort announcement for an
/// epoch other than the context's produces one message-dropped notification
/// and nothing else; in particular, no update touches the context.
pub proof fn lemma_participant_epoch_filter<P: Process, V: Value, T: Time>(
    event: ParticipantEvent<P, V>,
    ctx: TwoPhaseCommitContextView<P, T, ParticipantContextView<P, T>>,
    r: Result<Vec<ParticipantAction<P, V, T>>, AlgorithmError>,
)
    requires
        participant_event_ensures(event, ctx, r),
        event matches ParticipantEvent::Deliver(p, m) && (m is Commit || m is Abort) && (m
            matches ParticipantMessage::Commit(e) ==> e != ctx.epoch) && (m
            matches ParticipantMessage::Abort(e) ==> e != ctx.epoch),
    ensures
        r matches Ok(v) && v@.len() == 1 && v@[0] matches ParticipantAction::Notify(
            ParticipantActionNotification::MessageDropped(_),
        ),
{
}

/// Every message resent by a timed-out participant is a decision request
/// for the given epoch, and a send, never an update.
proof fn lemma_decision_request_sends_shape<P: Process, V: Value, T: Time>(
    ps: Seq<P>,
    this: P,
    epoch: Epoch,
)
    ensures
        forall|j: int|
            0 <= j < decision_request_sends::<P, V, T>(ps, this, epoch).len() ==> ((
            #[trigger] decision_request_sends::<P, V, T>(ps, this, epoch)[j])
                matches ParticipantAction::SendMessage(_, m) && m == TwoPhaseCommitMessage::<
                V,
            >::DecisionRequest(epoch)),
    decreases ps.len(),
{
    if ps.len() > 0 {
        lemma_decision_request_sends_shape::<P, V, T>(ps.drop_last(), this, epoch);
    }
}

/// Law (participant record stability): a participant's updates never touch
/// the epoch, the recorded last commit epoch, the peers, or the armed-alarm
/// record: a participant changes nothing but its own protocol position. In
/// particular, its answers to decision requests never change within an
/// epoch.
pub proof fn lemma_participant_updates_preserve_record<P: Process, V: Value, T: Time>(
    event: ParticipantEvent<P, V>,
    ctx: TwoPhaseCommitContextView<P, T, ParticipantContextView<P, T>>,
    r: Result<Vec<ParticipantAction<P, V, T>>, AlgorithmError>,
)
    requires
        participant_event_ensures(event, ctx, r),
    ensures
        (r matches Ok(v) ==> forall|i: int|
            0 <= i < v@.len() ==> ((#[trigger] v@[i]) matches ParticipantAction::Update {
                context: c,
                ..
            } ==> {
                &&& c@.epoch == ctx.epoch
                &&& c@.last_commit_epoch == ctx.last_commit_epoch
                &&& c@.coordinator == ctx.coordinator
                &&& c@.this_process == ctx.this_process
                &&& c@.alarm == ctx.alarm
                &&& c@.role_context.participant_processes
                    == ctx.role_context.participant_processes
            })),
{
    match r {
        Err(_) => {},
        Ok(v) => {
            assert forall|i: int| 0 <= i < v@.len() implies ((#[trigger] v@[i])
                matches ParticipantAction::Update { context: c, .. } ==> {
                &&& c@.epoch == ctx.epoch
                &&& c@.last_commit_epoch == ctx.last_commit_epoch
                &&& c@.coordinator == ctx.coordinator
                &&& c@.this_process == ctx.this_process
                &&& c@.alarm == ctx.alarm
                &&& c@.role_context.participant_processes
                    == ctx.role_context.participant_processes
            }) by {
                match event {
                    ParticipantEvent::Alarm() => {
                        match ctx.role_context.state {
                            super::participant_context::ParticipantState::Voted {
                                vote,
                                decision_timeout_start,
                            } => {
                                let now1 = choose|now1: T|
                                    #[trigger] voted_alarm_outcome(
                                        ctx,
                                        vote,
                                        decision_timeout_start,
                                        now1,
                                        r,
                                    );
                                if super::participant_algorithm::decision_timeout_expired(
                                    decision_timeout_start,
                                    now1,
                                ) {
                                    let now2 = choose|now2: T|
                                        #[trigger] decision_request_resend(ctx, vote, now2, v@);
                                    let sends = decision_request_sends::<P, V, T>(
                                        ctx.role_context.participant_processes,
                                        ctx.this_process,
                                        ctx.epoch,
                                    );
                                    let k = sends.len() as int;
                                    lemma_decision_request_sends_shape::<P, V, T>(
                                        ctx.role_context.participant_processes,
                                        ctx.this_process,
                                        ctx.epoch,
                                    );
                                    if i < k {
                                        assert(v@.subrange(0, k)[i] == v@[i]);
                                        assert(!(sends[i] is Update));
                                    } else if i == k + 1 {
                                        assert(super::participant_algorithm::is_participant_update(
                                            v@[i],
                                            ctx.with_state(
                                                super::participant_context::ParticipantState::Voted {
                                                    vote,
                                                    decision_timeout_start: now2,
                                                },
                                            ),
                                            Some(
                                                now2.spec_plus_seconds(
                                                    super::participant_algorithm::DECISION_TIMEOUT_SECONDS,
                                                ),
                                            ),
                                        ));
                                    }
                                }
                            },
                            _ => {},
                        }
                    },
                    _ => {},
                }
            }
        },
    }
}

/// Whether the unified action sends a commit announcement for the given
/// epoch.
pub open spec fn is_unified_commit_send<P: Process, V: Value, T: Time>(
    a: TwoPhaseCommitAction<P, V, T>,
    e: Epoch,
) -> bool {
    a matches TwoPhaseCommitAction::SendMessage(_, m) && m == TwoPhaseCommitMessage::<V>::Commit(e)
}

/// Whether the unified action sends an abort announcement for the given
/// epoch.
pub open spec fn is_unified_abort_send<P: Process, V: Value, T: Time>(
    a: TwoPhaseCommitAction<P, V, T>,
    e: Epoch,
) -> bool {
    a matches TwoPhaseCommitAction::SendMessage(_, m) && m == TwoPhaseCommitMessage::<V>::Abort(e)
}

/// Whether the role half of a unified context has decided commit.
pub open spec fn role_state_decided_commit<P, T>(rv: TwoPhaseCommitRoleContextView<P, T>) -> bool {
    match rv {
        TwoPhaseCommitRoleContextView::Coordinator(cv) => cv.state is Commit,
        TwoPhaseCommitRoleContextView::Participant(pv) => pv.state is Commit,
    }
}

/// Whether the role half of a unified context has decided abort.
pub open spec fn role_state_decided_abort<P, T>(rv: TwoPhaseCommitRoleContextView<P, T>) -> bool {
    match rv {
        TwoPhaseCommitRoleContextView::Coordinator(cv) => cv.state is Abort,
        TwoPhaseCommitRoleContextView::Participant(pv) => pv.state is Abort,
    }
}

/// Whether some earlier action in the unified list is an update whose
/// context has decided commit.
pub open spec fn unified_commit_recorded_before<P: Process, V: Value, T: Time>(
    v: Seq<TwoPhaseCommitAction<P, V, T>>,
    i: int,
) -> bool {
    exists|j: int|
        0 <= j < i && ((#[trigger] v[j]) matches TwoPhaseCommitAction::Update { context: c, .. }
            && role_state_decided_commit(c@.role_context))
}

/// Whether some earlier action in the unified list is an update whose
/// context has decided abort.
pub open spec fn unified_abort_recorded_before<P: Process, V: Value, T: Time>(
    v: Seq<TwoPhaseCommitAction<P, V, T>>,
    i: int,
) -> bool {
    exists|j: int|
        0 <= j < i && ((#[trigger] v[j]) matches TwoPhaseCommitAction::Update { context: c, .. }
            && role_state_decided_abort(c@.role_context))
}

/// A participant announces the current epoch's decision only from its
/// record: a commit answer names the recorded last commit epoch, and an
/// abort answer always concerns a past epoch, so fresh announcements of the
/// current epoch never appear in its action lists.
proof fn lemma_participant_no_fresh_decision_sends<P: Process, V: Value, T: Time>(
    event: ParticipantEvent<P, V>,
    ctx: TwoPhaseCommitContextView<P, T, ParticipantContextView<P, T>>,
    r: Result<Vec<ParticipantAction<P, V, T>>, AlgorithmError>,
)
    requires
        participant_event_ensures(event, ctx, r),
    ensures
        (r matches Ok(v) ==> forall|i: int|
            0 <= i < v@.len() ==> {
                &&& !((#[trigger] v@[i]) matches ParticipantAction::SendMessage(_, m) && m
                    == TwoPhaseCommitMessage::<V>::Commit(ctx.epoch) && ctx.last_commit_epoch
                    != Some(ctx.epoch))
                &&& !(v@[i] matches ParticipantAction::SendMessage(_, m) && m
                    == TwoPhaseCommitMessage::<V>::Abort(ctx.epoch))
            }),
{
    match r {
        Err(_) => {},
        Ok(v) => {
            assert forall|i: int| 0 <= i < v@.len() implies {
                &&& !((#[trigger] v@[i]) matches ParticipantAction::SendMessage(_, m) && m
                    == TwoPhaseCommitMessage::<V>::Commit(ctx.epoch) && ctx.last_commit_epoch
                    != Some(ctx.epoch))
                &&& !(v@[i] matches ParticipantAction::SendMessage(_, m) && m
                    == TwoPhaseCommitMessage::<V>::Abort(ctx.epoch))
            } by {
                match event {
                    ParticipantEvent::Alarm() => {
                        match ctx.role_context.state {
                            super::participant_context::ParticipantState::Voted {
                                vote,
                                decision_timeout_start,
                            } => {
                                let now1 = choose|now1: T|
                                    #[trigger] voted_alarm_outcome(
                                        ctx,
                                        vote,
                                        decision_timeout_start,
                                        now1,
                                        r,
                                    );
                                if super::participant_algorithm::decision_timeout_expired(
                                    decision_timeout_start,
                                    now1,
                                ) {
                                    let now2 = choose|now2: T|
                                        #[trigger] decision_request_resend(ctx, vote, now2, v@);
                                    let sends = decision_request_sends::<P, V, T>(
                                        ctx.role_context.participant_processes,
                                        ctx.this_process,
                                        ctx.epoch,
                                    );
                                    let k = sends.len() as int;
                                    lemma_decision_request_sends_shape::<P, V, T>(
                                        ctx.role_context.participant_processes,
                                        ctx.this_process,
                                        ctx.epoch,
                                    );
                                    if i < k {
                                        assert(v@.subrange(0, k)[i] == v@[i]);
                                    }
                                }
                            },
                            _ => {},
                        }
                    },
                    ParticipantEvent::Deliver(p, ParticipantMessage::DecisionRequest(e)) => {
                        if process_listed_or_coordinator(ctx, p) {
                            match decision_answer(ctx.epoch, ctx.last_commit_epoch, e) {
                                super::coordinator_algorithm::DecisionAnswer::Commit => {
                                    assert(ctx.last_commit_epoch == Some(e));
                                },
                                super::coordinator_algorithm::DecisionAnswer::Abort => {
                                    assert(e < ctx.epoch);
                                },
                                super::coordinator_algorithm::DecisionAnswer::Unknown => {},
                            }
                        }
                    },
                    _ => {},
                }
            }
        },
    }
}

/// Whether the sender passes the participant's decision-request validation.
pub open spec fn process_listed_or_coordinator<P: Process, T: Time>(
    ctx: TwoPhaseCommitContextView<P, T, ParticipantContextView<P, T>>,
    p: P,
) -> bool {
    super::participant_algorithm::process_listed(ctx.role_context.participant_processes, p)
        || ctx.coordinator@ == p@
}

/// Law (durable decision before announcement, unified): in every action
/// list the unified engine returns, an announcement of the current epoch's
/// decision comes after an update that records that decision, in whichever
/// role. As at the coordinator level, announcements of an already recorded
/// commit — decision-request answers — are the one exclusion.
pub proof fn lemma_unified_decision_send_ordering<P: Process, V: Value, T: Time>(
    event: TwoPhaseCommitEvent<P, V>,
    ctx: TwoPhaseCommitContextView<P, T, TwoPhaseCommitRoleContextView<P, T>>,
    r: Result<Vec<TwoPhaseCommitAction<P, V, T>>, AlgorithmError>,
)
    requires
        unified_event_ensures(event, ctx, r),
    ensures
        (r matches Ok(v) ==> forall|i: int|
            0 <= i < v@.len() ==> {
                &&& ((is_unified_commit_send(#[trigger] v@[i], ctx.epoch) && ctx.last_commit_epoch
                    != Some(ctx.epoch)) ==> unified_commit_recorded_before(v@, i))
                &&& (is_unified_abort_send(v@[i], ctx.epoch) ==> unified_abort_recorded_before(
                    v@,
                    i,
                ))
            }),
{
    match r {
        Err(_) => {},
        Ok(v) => {
            if ctx.coordinator@ == ctx.this_process@ {
                match event.spec_coordinator_event() {
                    Some(ce) => {
                        match ctx.role_context {
                            TwoPhaseCommitRoleContextView::Coordinator(cv) => {
                                let cw = ctx.with_role_context(cv);
                                let rr = choose|
                                    rr: Result<Vec<CoordinatorAction<P, V, T>>, AlgorithmError>,
                                |
                                    #[trigger] coordinator_event_ensures(ce, cw, rr)
                                        && lifts_coordinator_result(rr, r);
                                lemma_decision_send_ordering(ce, cw, rr);
                                match rr {
                                    Ok(ra) => {
                                        assert forall|i: int| 0 <= i < v@.len() implies {
                                            &&& ((is_unified_commit_send(
                                                #[trigger] v@[i],
                                                ctx.epoch,
                                            ) && ctx.last_commit_epoch != Some(ctx.epoch))
                                                ==> unified_commit_recorded_before(v@, i))
                                            &&& (is_unified_abort_send(v@[i], ctx.epoch)
                                                ==> unified_abort_recorded_before(v@, i))
                                        } by {
                                            assert(lifts_coordinator_action(ra@[i], v@[i]));
                                            if is_unified_commit_send(v@[i], ctx.epoch)
                                                && ctx.last_commit_epoch != Some(ctx.epoch) {
                                                assert(is_commit_send(ra@[i], cw.epoch));
                                                assert(commit_recorded_before(ra@, i));
                                                let j = choose|j: int|
                                                    0 <= j < i && ((#[trigger] ra@[j])
                                                        matches CoordinatorAction::Update {
                                                        context: c,
                                                        ..
                                                    } && c@.role_context.state is Commit);
                                                assert(lifts_coordinator_action(ra@[j], v@[j]));
                                                assert(unified_commit_recorded_before(v@, i));
                                            }
                                            if is_unified_abort_send(v@[i], ctx.epoch) {
                                                assert(is_abort_send(ra@[i], cw.epoch));
                                                assert(abort_recorded_before(ra@, i));
                                                let j = choose|j: int|
                                                    0 <= j < i && ((#[trigger] ra@[j])
                                                        matches CoordinatorAction::Update {
                                                        context: c,
                                                        ..
                                                    } && c@.role_context.state is Abort);
                                                assert(lifts_coordinator_action(ra@[j], v@[j]));
                                                assert(unified_abort_recorded_before(v@, i));
                                            }
                                        }
                                    },
                                    Err(_) => {
                                        assert(false);
                                    },
                                }
                            },
                            TwoPhaseCommitRoleContextView::Participant(_) => {
                                assert(false);
                            },
                        }
                    },
                    None => {
                        assert(false);
                    },
                }
            } else {
                match event.spec_participant_event() {
                    Some(pe) => {
                        match ctx.role_context {
                            TwoPhaseCommitRoleContextView::Participant(pv) => {
                                let pw = ctx.with_role_context(pv);
                                let rr = choose|
                                    rr: Result<Vec<ParticipantAction<P, V, T>>, AlgorithmError>,
                                |
                                    #[trigger] participant_event_ensures(pe, pw, rr)
                                        && lifts_participant_result(rr, r);
                                lemma_participant_no_fresh_decision_sends(pe, pw, rr);
                                match rr {
                                    Ok(ra) => {
                                        assert forall|i: int| 0 <= i < v@.len() implies {
                                            &&& ((is_unified_commit_send(
                                                #[trigger] v@[i],
                                                ctx.epoch,
                                            ) && ctx.last_commit_epoch != Some(ctx.epoch))
                                                ==> unified_commit_recorded_before(v@, i))
                                            &&& (is_unified_abort_send(v@[i], ctx.epoch)
                                                ==> unified_abort_recorded_before(v@, i))
                                        } by {
                                            assert(lifts_participant_action(ra@[i], v@[i]));
                                        }
                                    },
                                    Err(_) => {
                                        assert(false);
                                    },
                                }
                            },
                            TwoPhaseCommitRoleContextView::Coordinator(_) => {
                                assert(false);
                            },
                        }
                    },
                    None => {
                        assert(false);
                    },
                }
            }
        },
    }
}

} // verus!
