//! The coordinator algorithm and its specification.
//!
//! The executable engine is [`CoordinatorAlgorithm`]; every action list it
//! returns is pinned down, up to the instants its time source reported, by
//! the specification functions in this module.

use vstd::prelude::*;

use crate::algorithm::Algorithm;
use crate::algorithm::Value;
use crate::error::AlgorithmError;
use crate::error::InternalError;
use crate::error::InvalidStateError;
use crate::process::Process;
use crate::time::Time;
use crate::time::TimeSource;

use super::coordinator_action::CoordinatorAction;
use super::coordinator_action::CoordinatorActionNotification;
use super::coordinator_context::CoordinatorContext;
use super::coordinator_context::CoordinatorContextView;
use super::coordinator_context::CoordinatorState;
use super::coordinator_context::Participant;
use super::coordinator_event::CoordinatorEvent;
use super::coordinator_message::CoordinatorMessage;
use super::unified_context::TwoPhaseCommitContext;
use super::unified_context::TwoPhaseCommitContextView;
use super::unified_message::TwoPhaseCommitMessage;
use super::Epoch;

verus! {

/// Seconds the coordinator waits for all decision acknowledgements before
/// starting the next epoch.
///
/// The value does not bear on the correctness of the algorithm: a timeout is
/// processed the same way as receiving all acknowledgements, and a
/// participant that was left behind catches up through the decision-request
/// subprotocol.
pub const ACK_TIMEOUT_SECONDS: u64 = 5;

/// Seconds the coordinator collects votes before it decides to abort.
pub const VOTE_TIMEOUT_SECONDS: u64 = 30;

/// Whether the action is an update carrying the given context (compared by
/// mathematical content) and alarm.
pub open spec fn is_coordinator_update<P: Process, V: Value, T: Time>(
    a: CoordinatorAction<P, V, T>,
    context: TwoPhaseCommitContextView<P, T, CoordinatorContextView<P, T>>,
    alarm: Option<T>,
) -> bool {
    a matches CoordinatorAction::Update { context: c, alarm: al } && c@ == context && al == alarm
}

/// Whether the action is a message-dropped notification whose reason reads
/// as the given text.
pub open spec fn is_coordinator_dropped<P: Process, V: Value, T: Time>(
    a: CoordinatorAction<P, V, T>,
    reason: Seq<char>,
) -> bool {
    a matches CoordinatorAction::Notify(CoordinatorActionNotification::MessageDropped(m)) && m@
        == reason
}

/// Whether the action list consists of one message-dropped notification
/// with the given reason.
pub open spec fn coordinator_dropped_only<P: Process, V: Value, T: Time>(
    actions: Seq<CoordinatorAction<P, V, T>>,
    reason: Seq<char>,
) -> bool {
    actions.len() == 1 && is_coordinator_dropped(actions[0], reason)
}

/// Whether the error is an invalid-state error whose message reads as the
/// given text.
pub open spec fn is_invalid_state_error(e: AlgorithmError, message: Seq<char>) -> bool {
    e matches AlgorithmError::InvalidState(inner) && inner.message()@ == message
}

/// Whether no record in the participant list is the given process.
pub open spec fn no_participant_match<P: Process>(ps: Seq<Participant<P>>, p: P) -> bool {
    forall|i: int| 0 <= i < ps.len() ==> ps[i].process@ != p@
}

/// Whether `i` is the index of the first record of the given process in the
/// participant list.
pub open spec fn is_first_participant_match<P: Process>(
    ps: Seq<Participant<P>>,
    p: P,
    i: int,
) -> bool {
    &&& 0 <= i < ps.len()
    &&& ps[i].process@ == p@
    &&& forall|j: int| 0 <= j < i ==> ps[j].process@ != p@
}

/// The index of the first record of the given process in the participant
/// list; meaningful only when there is one.
pub open spec fn first_participant_match<P: Process>(ps: Seq<Participant<P>>, p: P) -> int
    decreases ps.len(),
{
    if ps.len() == 0 {
        0
    } else if ps[0].process@ == p@ {
        0
    } else {
        1 + first_participant_match(ps.skip(1), p)
    }
}

/// When some record in the participant list is the given process,
/// `first_participant_match` names the first one.
pub proof fn lemma_first_participant_match<P: Process>(ps: Seq<Participant<P>>, p: P)
    requires
        !no_participant_match(ps, p),
    ensures
        is_first_participant_match(ps, p, first_participant_match(ps, p)),
    decreases ps.len(),
{
    if ps.len() == 0 {
    } else if ps[0].process@ == p@ {
    } else {
        assert(!no_participant_match(ps.skip(1), p)) by {
            let w = choose|i: int| 0 <= i < ps.len() && ps[i].process@ == p@;
            assert(ps.skip(1)[w - 1] == ps[w]);
        }
        lemma_first_participant_match(ps.skip(1), p);
        let k = first_participant_match(ps.skip(1), p);
        assert(ps.skip(1)[k] == ps[k + 1]);
        assert forall|j: int| 0 <= j < k + 1 implies ps[j].process@ != p@ by {
            if j > 0 {
                assert(ps.skip(1)[j - 1] == ps[j]);
            }
        }
    }
}

/// The first matching index is the only index that matches first.
pub proof fn lemma_first_participant_match_unique<P: Process>(
    ps: Seq<Participant<P>>,
    p: P,
    i: int,
)
    requires
        is_first_participant_match(ps, p, i),
    ensures
        i == first_participant_match(ps, p),
{
    assert(!no_participant_match(ps, p));
    lemma_first_participant_match(ps, p);
    let k = first_participant_match(ps, p);
    if i < k {
        assert(ps[i].process@ != p@);
    }
    if k < i {
        assert(ps[k].process@ != p@);
    }
}

/// Whether every participant has voted.
pub open spec fn all_voted<P>(ps: Seq<Participant<P>>) -> bool {
    forall|i: int| 0 <= i < ps.len() ==> ps[i].vote is Some
}

/// Whether some participant has voted no.
pub open spec fn some_voted_no<P>(ps: Seq<Participant<P>>) -> bool {
    exists|i: int| 0 <= i < ps.len() && ps[i].vote == Some(false)
}

/// Whether every participant has acknowledged the decision.
pub open spec fn all_acked<P>(ps: Seq<Participant<P>>) -> bool {
    forall|i: int| 0 <= i < ps.len() ==> ps[i].decision_ack
}

/// The participant list with all votes and acknowledgements cleared, as
/// epoch advancement leaves it.
pub open spec fn participants_reset<P>(ps: Seq<Participant<P>>) -> Seq<Participant<P>> {
    ps.map(|i: int, p: Participant<P>| Participant { process: p.process, vote: None, decision_ack: false })
}

/// The context as epoch advancement leaves it: when the epoch was decided
/// commit it becomes the last commit epoch; the epoch increases by exactly
/// one; the votes and acknowledgements are cleared; the coordinator waits
/// for the next start event.
pub open spec fn advance_epoch_view<P: Process, T: Time>(
    ctx: TwoPhaseCommitContextView<P, T, CoordinatorContextView<P, T>>,
) -> TwoPhaseCommitContextView<P, T, CoordinatorContextView<P, T>>
    recommends
        ctx.epoch < Epoch::MAX,
{
    let last_commit_epoch = if ctx.role_context.state is Commit {
        Some(ctx.epoch)
    } else {
        ctx.last_commit_epoch
    };
    ctx.with_last_commit_epoch(last_commit_epoch).with_epoch(
        (ctx.epoch + 1) as Epoch,
    ).with_state(CoordinatorState::WaitingForStart).with_participants(
        participants_reset(ctx.role_context.participants),
    )
}

/// Whether the action list announces an epoch advance: an update to the
/// advanced context with the alarm cleared, then a request for the next
/// start value.
pub open spec fn advance_epoch_actions<P: Process, V: Value, T: Time>(
    ctx: TwoPhaseCommitContextView<P, T, CoordinatorContextView<P, T>>,
    actions: Seq<CoordinatorAction<P, V, T>>,
) -> bool {
    &&& actions.len() == 2
    &&& is_coordinator_update(actions[0], advance_epoch_view(ctx), None)
    &&& actions[1] == CoordinatorAction::<P, V, T>::Notify(
        CoordinatorActionNotification::RequestForStart(),
    )
}

/// The context waiting for decision acknowledgements from the given
/// instant on.
pub open spec fn wait_for_ack_view<P: Process, T: Time>(
    ctx: TwoPhaseCommitContextView<P, T, CoordinatorContextView<P, T>>,
    now: T,
) -> TwoPhaseCommitContextView<P, T, CoordinatorContextView<P, T>> {
    ctx.with_state(CoordinatorState::WaitingForDecisionAck { ack_timeout_start: now })
}

/// The abort messages sent when the epoch is decided abort: one to each
/// participant that voted yes, in list order. Participants that voted no
/// already know the outcome, and participants that have not voted learn it
/// through the decision-request subprotocol.
pub open spec fn abort_message_sends<P: Process, V: Value, T: Time>(
    ps: Seq<Participant<P>>,
    epoch: Epoch,
) -> Seq<CoordinatorAction<P, V, T>>
    decreases ps.len(),
{
    if ps.len() == 0 {
        Seq::empty()
    } else {
        let rest = abort_message_sends::<P, V, T>(ps.drop_last(), epoch);
        if ps.last().vote == Some(true) {
            rest.push(
                CoordinatorAction::SendMessage(
                    ps.last().process,
                    TwoPhaseCommitMessage::Abort(epoch),
                ),
            )
        } else {
            rest
        }
    }
}

/// Whether the action list carries out the abort decision: an update to the
/// abort state, the abort messages to the yes-voters, the abort
/// notification, and the update that starts waiting for acknowledgements at
/// instant `now` with an alarm one acknowledgement timeout later.
pub open spec fn abort_actions<P: Process, V: Value, T: Time>(
    ctx: TwoPhaseCommitContextView<P, T, CoordinatorContextView<P, T>>,
    now: T,
    actions: Seq<CoordinatorAction<P, V, T>>,
) -> bool {
    let aborted = ctx.with_state(CoordinatorState::Abort);
    let sends = abort_message_sends::<P, V, T>(ctx.role_context.participants, ctx.epoch);
    let n = sends.len() as int;
    &&& actions.len() == n + 3
    &&& is_coordinator_update(actions[0], aborted, None)
    &&& actions.subrange(1, n + 1) == sends
    &&& actions[n + 1] == CoordinatorAction::<P, V, T>::Notify(
        CoordinatorActionNotification::Abort(),
    )
    &&& is_coordinator_update(
        actions[n + 2],
        wait_for_ack_view(aborted, now),
        Some(now.spec_plus_seconds(ACK_TIMEOUT_SECONDS)),
    )
}

/// Whether the action list carries out the commit decision: an update that
/// records the current epoch as the last commit epoch and enters the commit
/// state, a commit message to every participant, the commit notification,
/// and the update that starts waiting for acknowledgements at instant `now`
/// with an alarm one acknowledgement timeout later. Recording the commit
/// before any message leaves is what lets every later decision request
/// about this epoch be answered with the same decision.
pub open spec fn commit_actions<P: Process, V: Value, T: Time>(
    ctx: TwoPhaseCommitContextView<P, T, CoordinatorContextView<P, T>>,
    now: T,
    actions: Seq<CoordinatorAction<P, V, T>>,
) -> bool {
    let committed = ctx.with_last_commit_epoch(Some(ctx.epoch)).with_state(CoordinatorState::Commit);
    let ps = ctx.role_context.participants;
    let n = ps.len() as int;
    &&& actions.len() == n + 3
    &&& is_coordinator_update(actions[0], committed, None)
    &&& forall|i: int|
        0 <= i < n ==> actions[1 + i] == CoordinatorAction::<P, V, T>::SendMessage(
            ps[i].process,
            TwoPhaseCommitMessage::Commit(ctx.epoch),
        )
    &&& actions[n + 1] == CoordinatorAction::<P, V, T>::Notify(
        CoordinatorActionNotification::Commit(),
    )
    &&& is_coordinator_update(
        actions[n + 2],
        wait_for_ack_view(committed, now),
        Some(now.spec_plus_seconds(ACK_TIMEOUT_SECONDS)),
    )
}

/// Whether the action list starts the vote on the given value at instant
/// `now`: an update to the voting state with an alarm one vote timeout
/// later, then a vote request to every participant. The update comes first
/// so that the started vote is durable before any request leaves: a crash
/// after a request could otherwise restart the epoch with another value and
/// count the answers already cast toward it.
pub open spec fn start_actions<P: Process, V: Value, T: Time>(
    ctx: TwoPhaseCommitContextView<P, T, CoordinatorContextView<P, T>>,
    value: V,
    now: T,
    actions: Seq<CoordinatorAction<P, V, T>>,
) -> bool {
    let ps = ctx.role_context.participants;
    let n = ps.len() as int;
    &&& actions.len() == n + 1
    &&& is_coordinator_update(
        actions[0],
        ctx.with_state(CoordinatorState::Voting { vote_timeout_start: now }),
        Some(now.spec_plus_seconds(VOTE_TIMEOUT_SECONDS)),
    )
    &&& forall|i: int|
        0 <= i < n ==> actions[1 + i] == CoordinatorAction::<P, V, T>::SendMessage(
            ps[i].process,
            TwoPhaseCommitMessage::VoteRequest(ctx.epoch, value),
        )
}

/// What a peer asking about epoch `e` can be told by a process currently at
/// `current_epoch` that committed most recently at `last_commit_epoch`.
pub ghost enum DecisionAnswer {
    /// Epoch `e` was decided commit: it is the recorded last commit epoch.
    Commit,
    /// Epoch `e` was decided abort: it has passed and lies after the last
    /// commit epoch.
    Abort,
    /// Nothing can be said: the epoch is not decided yet, or lies before
    /// the last commit epoch, where no peer can still be uncertain.
    Unknown,
}

/// The answer a process gives to a decision request for epoch `e`.
pub open spec fn decision_answer(
    current_epoch: Epoch,
    last_commit_epoch: Option<Epoch>,
    e: Epoch,
) -> DecisionAnswer {
    match last_commit_epoch {
        Some(l) => if e == l {
            DecisionAnswer::Commit
        } else if e < current_epoch && e > l {
            DecisionAnswer::Abort
        } else {
            DecisionAnswer::Unknown
        },
        None => if e < current_epoch {
            DecisionAnswer::Abort
        } else {
            DecisionAnswer::Unknown
        },
    }
}

/// Whether the action list answers a decision request from participant `p`
/// about epoch `e`: the recorded decision when one can be deduced, a
/// message-dropped notification otherwise or when the sender is not a
/// participant.
pub open spec fn coordinator_decision_request_actions<P: Process, V: Value, T: Time>(
    ctx: TwoPhaseCommitContextView<P, T, CoordinatorContextView<P, T>>,
    p: P,
    e: Epoch,
    actions: Seq<CoordinatorAction<P, V, T>>,
) -> bool {
    if no_participant_match(ctx.role_context.participants, p) {
        coordinator_dropped_only(actions, "sender process is not a participant"@)
    } else {
        match decision_answer(ctx.epoch, ctx.last_commit_epoch, e) {
            DecisionAnswer::Commit => actions.len() == 1 && actions[0] == CoordinatorAction::<
                P,
                V,
                T,
            >::SendMessage(p, TwoPhaseCommitMessage::Commit(e)),
            DecisionAnswer::Abort => actions.len() == 1 && actions[0] == CoordinatorAction::<
                P,
                V,
                T,
            >::SendMessage(p, TwoPhaseCommitMessage::Abort(e)),
            DecisionAnswer::Unknown => coordinator_dropped_only(actions, "decision unknown"@),
        }
    }
}

/// Whether the result answers a vote response from process `p` about epoch
/// `e`: the vote is recorded once per participant and epoch, and when the
/// last vote arrives the coordinator either aborts (on any no) or asks its
/// embedder for the local vote (on all yes). Messages from strangers, for
/// other epochs, outside the voting window, or repeated are dropped.
pub open spec fn vote_response_actions<P: Process, V: Value, T: Time>(
    ctx: TwoPhaseCommitContextView<P, T, CoordinatorContextView<P, T>>,
    p: P,
    e: Epoch,
    vote: bool,
    actions: Seq<CoordinatorAction<P, V, T>>,
) -> bool {
    let ps = ctx.role_context.participants;
    if no_participant_match(ps, p) {
        coordinator_dropped_only(actions, "sender process is not a participant"@)
    } else if e != ctx.epoch {
        coordinator_dropped_only(actions, "epoch is not the current epoch"@)
    } else if !(ctx.role_context.state matches CoordinatorState::Voting { .. }) {
        coordinator_dropped_only(actions, "context state is not Voting"@)
    } else {
        let i = first_participant_match(ps, p);
        {
            if ps[i].vote is Some {
                coordinator_dropped_only(actions, "participant has already voted"@)
            } else {
                let ps1 = ps.update(
                    i,
                    Participant { process: ps[i].process, vote: Some(vote), decision_ack: ps[i].decision_ack },
                );
                let ctx1 = ctx.with_participants(ps1);
                &&& actions.len() >= 1
                &&& is_coordinator_update(actions[0], ctx1, None)
                &&& if all_voted(ps1) {
                    if some_voted_no(ps1) {
                        exists|now: T| #[trigger] abort_actions(ctx1, now, actions.skip(1))
                    } else {
                        &&& actions.len() == 3
                        &&& is_coordinator_update(
                            actions[1],
                            ctx1.with_state(CoordinatorState::WaitingForVote),
                            None,
                        )
                        &&& actions[2] == CoordinatorAction::<P, V, T>::Notify(
                            CoordinatorActionNotification::RequestForVote(),
                        )
                    }
                } else {
                    actions.len() == 1
                }
            }
        }
    }
}

/// Whether the result answers a decision acknowledgement from process `p`
/// about epoch `e`: the acknowledgement is recorded once per participant
/// and epoch, and when the last one arrives the epoch advances. Messages
/// from strangers, for other epochs, outside the acknowledgement window, or
/// repeated are dropped. An internal error is the only outcome when the
/// epoch counter cannot advance because it is exhausted.
pub open spec fn decision_ack_result<P: Process, V: Value, T: Time>(
    ctx: TwoPhaseCommitContextView<P, T, CoordinatorContextView<P, T>>,
    p: P,
    e: Epoch,
    r: Result<Vec<CoordinatorAction<P, V, T>>, AlgorithmError>,
) -> bool {
    let ps = ctx.role_context.participants;
    if no_participant_match(ps, p) {
        r matches Ok(v) && coordinator_dropped_only(
            v@,
            "sender process is not a participant"@,
        )
    } else if e != ctx.epoch {
        r matches Ok(v) && coordinator_dropped_only(v@, "epoch is not the current epoch"@)
    } else if !(ctx.role_context.state matches CoordinatorState::WaitingForDecisionAck { .. }) {
        r matches Ok(v) && coordinator_dropped_only(
            v@,
            "context state is not WaitingForDecisionAck"@,
        )
    } else {
        let i = first_participant_match(ps, p);
        {
            if ps[i].decision_ack {
                r matches Ok(v) && coordinator_dropped_only(
                    v@,
                    "participant has already sent a decision ack"@,
                )
            } else {
                let ps1 = ps.update(
                    i,
                    Participant { process: ps[i].process, vote: ps[i].vote, decision_ack: true },
                );
                let ctx1 = ctx.with_participants(ps1);
                if all_acked(ps1) {
                    if ctx.epoch == Epoch::MAX {
                        r matches Err(err) && err matches AlgorithmError::Internal(_)
                    } else {
                        r matches Ok(v) && v@.len() == 3 && is_coordinator_update(v@[0], ctx1, None)
                            && advance_epoch_actions(ctx1, v@.skip(1))
                    }
                } else {
                    r matches Ok(v) && v@.len() == 1 && is_coordinator_update(v@[0], ctx1, None)
                }
            }
        }
    }
}

/// Whether the result processes an alarm. In the voting and
/// acknowledgement-collecting states an expired timeout decides abort or
/// advances the epoch, while a premature alarm is ignored; in the idle and
/// vote-awaiting states the pending request to the embedder is repeated; in
/// the decided states the engine recovers by advancing the epoch. An
/// internal error is the only outcome when an advance is due but the epoch
/// counter is exhausted.
pub open spec fn coordinator_alarm_result<P: Process, V: Value, T: Time>(
    ctx: TwoPhaseCommitContextView<P, T, CoordinatorContextView<P, T>>,
    r: Result<Vec<CoordinatorAction<P, V, T>>, AlgorithmError>,
) -> bool {
    match ctx.role_context.state {
        CoordinatorState::Voting { vote_timeout_start } => exists|now1: T|
            #[trigger] voting_alarm_outcome(ctx, vote_timeout_start, now1, r),
        CoordinatorState::WaitingForStart => r matches Ok(v) && v@.len() == 2 && v@[0]
            == CoordinatorAction::<P, V, T>::Notify(CoordinatorActionNotification::RequestForStart())
            && is_coordinator_update(v@[1], ctx, None),
        CoordinatorState::WaitingForVote => r matches Ok(v) && v@.len() == 2 && v@[0]
            == CoordinatorAction::<P, V, T>::Notify(CoordinatorActionNotification::RequestForVote())
            && is_coordinator_update(v@[1], ctx, None),
        CoordinatorState::WaitingForDecisionAck { ack_timeout_start } => exists|now1: T|
            #[trigger] ack_alarm_outcome(ctx, ack_timeout_start, now1, r),
        CoordinatorState::Commit | CoordinatorState::Abort => if ctx.epoch == Epoch::MAX {
            r matches Err(err) && err matches AlgorithmError::Internal(_)
        } else {
            r matches Ok(v) && advance_epoch_actions(ctx, v@)
        },
    }
}

/// Whether the result processes an alarm that went off in the voting state,
/// the timeout being judged against instant `now1`: an expired vote
/// collection decides abort; a premature alarm is ignored.
pub open spec fn voting_alarm_outcome<P: Process, V: Value, T: Time>(
    ctx: TwoPhaseCommitContextView<P, T, CoordinatorContextView<P, T>>,
    vote_timeout_start: T,
    now1: T,
    r: Result<Vec<CoordinatorAction<P, V, T>>, AlgorithmError>,
) -> bool {
    if vote_timeout_expired(vote_timeout_start, now1) {
        r matches Ok(v) && exists|now2: T| #[trigger] abort_actions(ctx, now2, v@)
    } else {
        r matches Ok(v) && v@.len() == 0
    }
}

/// Whether the result processes an alarm that went off while
/// acknowledgements were being collected, the timeout being judged against
/// instant `now1`: an expired collection advances the epoch (an internal
/// error being the only outcome when the epoch counter is exhausted); a
/// premature alarm is ignored.
pub open spec fn ack_alarm_outcome<P: Process, V: Value, T: Time>(
    ctx: TwoPhaseCommitContextView<P, T, CoordinatorContextView<P, T>>,
    ack_timeout_start: T,
    now1: T,
    r: Result<Vec<CoordinatorAction<P, V, T>>, AlgorithmError>,
) -> bool {
    if ack_timeout_expired(ack_timeout_start, now1) {
        if ctx.epoch == Epoch::MAX {
            r matches Err(err) && err matches AlgorithmError::Internal(_)
        } else {
            r matches Ok(v) && advance_epoch_actions(ctx, v@)
        }
    } else {
        r matches Ok(v) && v@.len() == 0
    }
}

/// Whether the vote collection that started at the given instant has timed
/// out by instant `now`.
pub open spec fn vote_timeout_expired<T: Time>(vote_timeout_start: T, now: T) -> bool {
    vote_timeout_start.spec_plus_seconds(VOTE_TIMEOUT_SECONDS).spec_before(now)
}

/// Whether the acknowledgement collection that started at the given instant
/// has timed out by instant `now`.
pub open spec fn ack_timeout_expired<T: Time>(ack_timeout_start: T, now: T) -> bool {
    ack_timeout_start.spec_plus_seconds(ACK_TIMEOUT_SECONDS).spec_before(now)
}

/// Whether the result processes the embedder's vote: deciding commit on a
/// yes and abort on a no, and rejecting the event as embedder misuse when
/// no vote is awaited.
pub open spec fn coordinator_vote_result<P: Process, V: Value, T: Time>(
    ctx: TwoPhaseCommitContextView<P, T, CoordinatorContextView<P, T>>,
    vote: bool,
    r: Result<Vec<CoordinatorAction<P, V, T>>, AlgorithmError>,
) -> bool {
    if !(ctx.role_context.state is WaitingForVote) {
        r matches Err(e) && is_invalid_state_error(
            e,
            "Vote event when not in WaitingForVote state"@,
        )
    } else if vote {
        r matches Ok(v) && exists|now: T| #[trigger] commit_actions(ctx, now, v@)
    } else {
        r matches Ok(v) && exists|now: T| #[trigger] abort_actions(ctx, now, v@)
    }
}

/// What the coordinator algorithm guarantees of the result of processing an
/// event: for some instants `now` that its time source reported, the result
/// is the one the specification functions of this module prescribe.
pub open spec fn coordinator_event_ensures<P: Process, V: Value, T: Time>(
    event: CoordinatorEvent<P, V>,
    ctx: TwoPhaseCommitContextView<P, T, CoordinatorContextView<P, T>>,
    r: Result<Vec<CoordinatorAction<P, V, T>>, AlgorithmError>,
) -> bool {
    match event {
        CoordinatorEvent::Start(value) => r matches Ok(v) && exists|now: T|
            #[trigger] start_actions(ctx, value, now, v@),
        CoordinatorEvent::Vote(vote) => coordinator_vote_result(ctx, vote, r),
        CoordinatorEvent::Alarm() => coordinator_alarm_result(ctx, r),
        CoordinatorEvent::Deliver(p, m) => match m {
            CoordinatorMessage::VoteResponse(e, vote) => r matches Ok(v) && vote_response_actions(
                ctx,
                p,
                e,
                vote,
                v@,
            ),
            CoordinatorMessage::DecisionRequest(e) => r matches Ok(v)
                && coordinator_decision_request_actions(ctx, p, e, v@),
            CoordinatorMessage::DecisionAck(e) => decision_ack_result(ctx, p, e, r),
        },
    }
}

/// Whether `ctx1` and the action `a` record the start, at instant `now`, of
/// the wait for decision acknowledgements in context `ctx0`.
pub open spec fn wait_for_ack_step<P: Process, V: Value, T: Time>(
    ctx0: TwoPhaseCommitContextView<P, T, CoordinatorContextView<P, T>>,
    now: T,
    ctx1: TwoPhaseCommitContextView<P, T, CoordinatorContextView<P, T>>,
    a: CoordinatorAction<P, V, T>,
) -> bool {
    &&& ctx1 == wait_for_ack_view(ctx0, now)
    &&& is_coordinator_update(a, wait_for_ack_view(ctx0, now), Some(now.spec_plus_seconds(ACK_TIMEOUT_SECONDS)))
}

/// Returns a vector holding exactly the given element.
pub fn singleton_vec<A>(a: A) -> (r: Vec<A>)
    ensures
        r@.len() == 1,
        r@[0] == a,
{
    let mut r: Vec<A> = Vec::new();
    r.push(a);
    r
}

/// Returns the index of the first record of the given process in the
/// participant list, when there is one.
pub fn find_participant<P: Process>(participants: &Vec<Participant<P>>, process: &P) -> (r: Option<
    usize,
>)
    ensures
        (match r {
            Some(i) => is_first_participant_match(participants@, *process, i as int),
            None => no_participant_match(participants@, *process),
        }),
{
    let mut i: usize = 0;
    while i < participants.len()
        invariant
            i <= participants@.len(),
            forall|j: int| 0 <= j < i ==> participants@[j].process@ != process@,
        decreases participants@.len() - i,
    {
        if participants[i].process.eq_process(process) {
            return Some(i);
        }
        i += 1;
    }
    None
}

/// Returns whether every participant has voted.
pub fn all_participants_voted<P: Process>(participants: &Vec<Participant<P>>) -> (r: bool)
    ensures
        r == all_voted(participants@),
{
    let mut i: usize = 0;
    while i < participants.len()
        invariant
            i <= participants@.len(),
            forall|j: int| 0 <= j < i ==> participants@[j].vote is Some,
        decreases participants@.len() - i,
    {
        if participants[i].vote.is_none() {
            return false;
        }
        i += 1;
    }
    true
}

/// Returns whether some participant has voted no.
pub fn some_participant_voted_no<P: Process>(participants: &Vec<Participant<P>>) -> (r: bool)
    ensures
        r == some_voted_no(participants@),
{
    let mut i: usize = 0;
    while i < participants.len()
        invariant
            i <= participants@.len(),
            forall|j: int| 0 <= j < i ==> participants@[j].vote != Some(false),
        decreases participants@.len() - i,
    {
        match participants[i].vote {
            Some(false) => {
                return true;
            },
            _ => {},
        }
        i += 1;
    }
    false
}

/// Returns whether every participant has acknowledged the decision.
pub fn all_participants_acked<P: Process>(participants: &Vec<Participant<P>>) -> (r: bool)
    ensures
        r == all_acked(participants@),
{
    let mut i: usize = 0;
    while i < participants.len()
        invariant
            i <= participants@.len(),
            forall|j: int| 0 <= j < i ==> participants@[j].decision_ack,
        decreases participants@.len() - i,
    {
        if !participants[i].decision_ack {
            return false;
        }
        i += 1;
    }
    true
}

/// The coordinator's side of the two-phase-commit protocol.
///
/// The engine is a pure function from an event and a context to a list of
/// actions; it keeps nothing between calls but its time source.
pub struct CoordinatorAlgorithm<P, V, TS> {
    /// Where the engine reads the current time.
    pub time_source: TS,
    /// Marks the process and value types the engine is built for.
    pub marker: core::marker::PhantomData<(P, V)>,
}

impl<P: Process, V: Value, TS: TimeSource> CoordinatorAlgorithm<P, V, TS> {
    /// Builds a coordinator engine around the given time source.
    pub fn new(time_source: TS) -> (r: Self)
        ensures
            r.time_source == time_source,
    {
        CoordinatorAlgorithm { time_source, marker: core::marker::PhantomData }
    }

    /// Appends the update that starts the wait for decision
    /// acknowledgements, switching the context into that state.
    fn push_wait_for_decision_ack(
        &self,
        context: &mut TwoPhaseCommitContext<P, TS::Time, CoordinatorContext<P, TS::Time>>,
        actions: &mut Vec<CoordinatorAction<P, V, TS::Time>>,
    )
        ensures
            final(actions)@.len() == old(actions)@.len() + 1,
            final(actions)@.subrange(0, old(actions)@.len() as int) == old(actions)@,
            exists|now: TS::Time|
                #[trigger] wait_for_ack_step(
                    old(context)@,
                    now,
                    final(context)@,
                    final(actions)@.last(),
                ),
    {
        let ghost ctx0 = context@;
        let ghost prefix = actions@;
        let now = self.time_source.now();
        let alarm_at = now.plus_seconds(ACK_TIMEOUT_SECONDS);
        context.set_state(CoordinatorState::WaitingForDecisionAck { ack_timeout_start: now });
        actions.push(
            CoordinatorAction::Update { context: context.clone_context(), alarm: Some(alarm_at) },
        );
        proof {
            assert(actions@.subrange(0, prefix.len() as int) =~= prefix);
            assert(wait_for_ack_step::<P, V, TS::Time>(ctx0, now, context@, actions@.last()));
        }
    }

    /// Appends the actions that advance the engine into the next epoch.
    fn push_advance_epoch_actions(
        &self,
        context: &mut TwoPhaseCommitContext<P, TS::Time, CoordinatorContext<P, TS::Time>>,
        actions: &mut Vec<CoordinatorAction<P, V, TS::Time>>,
    )
        requires
            old(context)@.epoch < Epoch::MAX,
        ensures
            final(actions)@.len() == old(actions)@.len() + 2,
            final(actions)@.subrange(0, old(actions)@.len() as int) == old(actions)@,
            advance_epoch_actions(old(context)@, final(actions)@.skip(old(actions)@.len() as int)),
            final(context)@ == advance_epoch_view(old(context)@),
    {
        let ghost ctx0 = context@;
        let ghost prefix = actions@;
        if matches!(context.role_context.state, CoordinatorState::Commit) {
            let current = context.epoch;
            context.set_last_commit_epoch(Some(current));
        }
        let current = context.epoch;
        context.set_epoch(current + 1);
        context.set_state(CoordinatorState::WaitingForStart);

        let mut reset: Vec<Participant<P>> = Vec::new();
        let mut i: usize = 0;
        let n = context.role_context.participants.len();
        while i < n
            invariant
                n == context.role_context.participants@.len(),
                context.role_context.participants@ == ctx0.role_context.participants,
                i <= n,
                reset@.len() == i,
                forall|j: int|
                    0 <= j < i ==> reset@[j] == (Participant {
                        process: ctx0.role_context.participants[j].process,
                        vote: None,
                        decision_ack: false,
                    }),
            decreases n - i,
        {
            reset.push(Participant::new(context.role_context.participants[i].process.clone_process()));
            i += 1;
        }
        context.role_context.participants = reset;
        proof {
            assert(context@.role_context.participants =~= participants_reset(
                ctx0.role_context.participants,
            ));
            assert(context@ == advance_epoch_view(ctx0));
        }
        actions.push(CoordinatorAction::Update { context: context.clone_context(), alarm: None });
        actions.push(CoordinatorAction::Notify(CoordinatorActionNotification::RequestForStart()));
        proof {
            assert(actions@.subrange(0, prefix.len() as int) =~= prefix);
            assert(advance_epoch_actions(ctx0, actions@.skip(prefix.len() as int)));
        }
    }

    /// Appends the actions that carry out an abort decision, consuming the
    /// context.
    fn push_abort_actions(
        &self,
        context: TwoPhaseCommitContext<P, TS::Time, CoordinatorContext<P, TS::Time>>,
        actions: &mut Vec<CoordinatorAction<P, V, TS::Time>>,
    )
        ensures
            final(actions)@.len() > old(actions)@.len(),
            final(actions)@.subrange(0, old(actions)@.len() as int) == old(actions)@,
            exists|now: TS::Time|
                #[trigger] abort_actions(
                    context@,
                    now,
                    final(actions)@.skip(old(actions)@.len() as int),
                ),
    {
        let ghost ctx0 = context@;
        let ghost prefix = actions@;
        let ghost base = actions@.len() as int;
        let ghost ps0 = ctx0.role_context.participants;
        let mut context = context;
        context.set_state(CoordinatorState::Abort);
        actions.push(CoordinatorAction::Update { context: context.clone_context(), alarm: None });

        let epoch = context.epoch;
        let n = context.role_context.participants.len();
        proof {
            assert(actions@.subrange(0, base) =~= prefix);
            assert(ps0.subrange(0, 0) =~= Seq::<Participant<P>>::empty());
            assert(actions@.skip(base + 1) =~= abort_message_sends::<P, V, TS::Time>(
                ps0.subrange(0, 0),
                ctx0.epoch,
            ));
        }
        let mut i: usize = 0;
        while i < n
            invariant
                0 <= base,
                base == prefix.len(),
                n == ps0.len(),
                n == context.role_context.participants@.len(),
                context@ == ctx0.with_state(CoordinatorState::Abort),
                ps0 == ctx0.role_context.participants,
                epoch == ctx0.epoch,
                i <= n,
                actions@.len() == base + 1 + abort_message_sends::<P, V, TS::Time>(
                    ps0.subrange(0, i as int),
                    ctx0.epoch,
                ).len(),
                actions@.subrange(0, base) == prefix,
                is_coordinator_update(
                    actions@[base],
                    ctx0.with_state(CoordinatorState::Abort),
                    None,
                ),
                actions@.skip(base + 1) == abort_message_sends::<P, V, TS::Time>(
                    ps0.subrange(0, i as int),
                    ctx0.epoch,
                ),
            decreases n - i,
        {
            let ghost sofar = actions@;
            let voted_yes = matches!(context.role_context.participants[i].vote, Some(true));
            if voted_yes {
                actions.push(
                    CoordinatorAction::SendMessage(
                        context.role_context.participants[i].process.clone_process(),
                        TwoPhaseCommitMessage::Abort(epoch),
                    ),
                );
            }
            proof {
                let s1 = ps0.subrange(0, i + 1 as int);
                assert(s1.drop_last() =~= ps0.subrange(0, i as int));
                assert(s1.last() == ps0[i as int]);
                if voted_yes {
                    assert(actions@.skip(base + 1) =~= sofar.skip(base + 1).push(
                        actions@.last(),
                    ));
                    assert(actions@.subrange(0, base) =~= sofar.subrange(0, base));
                } else {
                    assert(actions@.skip(base + 1) == abort_message_sends::<P, V, TS::Time>(
                        s1,
                        ctx0.epoch,
                    ));
                }
            }
            i += 1;
        }
        proof {
            assert(ps0.subrange(0, n as int) =~= ps0);
        }
        let ghost after_sends = actions@;
        actions.push(CoordinatorAction::Notify(CoordinatorActionNotification::Abort()));
        let ghost with_notify = actions@;
        self.push_wait_for_decision_ack(&mut context, actions);
        proof {
            let now = choose|now: TS::Time|
                #[trigger] wait_for_ack_step::<P, V, TS::Time>(
                    ctx0.with_state(CoordinatorState::Abort),
                    now,
                    context@,
                    actions@.last(),
                );
            assert(actions@.subrange(0, with_notify.len() as int) == with_notify);
            assert forall|m: int| 0 <= m < with_notify.len() implies actions@[m]
                == with_notify[m] by {
                assert(actions@.subrange(0, with_notify.len() as int)[m] == actions@[m]);
            }
            let sends = abort_message_sends::<P, V, TS::Time>(ps0, ctx0.epoch);
            let k = sends.len() as int;
            let suffix = actions@.skip(base);
            assert(suffix.len() == k + 3);
            assert(after_sends.skip(base + 1) == sends);
            assert(suffix[0] == actions@[base]);
            assert(actions@[base] == with_notify[base]);
            assert(with_notify[base] == after_sends[base]);
            assert(is_coordinator_update(
                suffix[0],
                ctx0.with_state(CoordinatorState::Abort),
                None,
            ));
            assert forall|j: int| 0 <= j < k implies suffix[j + 1] == sends[j] by {
                assert(suffix[j + 1] == actions@[base + j + 1]);
                assert(actions@[base + j + 1] == with_notify[base + j + 1]);
                assert(with_notify[base + j + 1] == after_sends[base + j + 1]);
                assert(after_sends.skip(base + 1)[j] == after_sends[base + j + 1]);
            }
            assert(suffix.subrange(1, k + 1) =~= sends);
            assert(suffix[k + 1] == actions@[base + k + 1]);
            assert(actions@[base + k + 1] == with_notify[base + k + 1]);
            assert(with_notify[base + k + 1] == with_notify.last());
            assert(suffix[k + 1] == CoordinatorAction::<P, V, TS::Time>::Notify(
                CoordinatorActionNotification::Abort(),
            ));
            assert(suffix[k + 2] == actions@.last());
            assert(abort_actions(ctx0, now, suffix));
            assert(actions@.subrange(0, base) =~= prefix);
        }
    }
}

impl<P: Process, V: Value, TS: TimeSource> Algorithm for CoordinatorAlgorithm<P, V, TS> {
    type Event = CoordinatorEvent<P, V>;

    type Action = CoordinatorAction<P, V, TS::Time>;

    type Context = TwoPhaseCommitContext<P, TS::Time, CoordinatorContext<P, TS::Time>>;

    /// Processes an event with a given context, producing the actions the
    /// specification functions of this module prescribe.
    fn event(
        &self,
        event: CoordinatorEvent<P, V>,
        context: TwoPhaseCommitContext<P, TS::Time, CoordinatorContext<P, TS::Time>>,
    ) -> (r: Result<Vec<CoordinatorAction<P, V, TS::Time>>, AlgorithmError>)
        ensures
            coordinator_event_ensures(event, context@, r),
    {
        let ghost ctx0 = context@;
        let ghost event0 = event;
        match event {
            // In response to a request-for-start notification, a start event
            // provides the next value to agree on: ask every participant for
            // its vote and start the vote timeout.
            CoordinatorEvent::Start(value) => {
                let ghost value0 = value;
                let mut context = context;
                let mut actions: Vec<CoordinatorAction<P, V, TS::Time>> = Vec::new();
                let epoch = context.epoch;
                // Record the start of the vote durably before any request
                // can leave, so that a crash cannot restart the epoch with
                // another value, and arm the vote timeout; the alarm set
                // here is processed as an alarm event once the timeout has
                // passed.
                let now = self.time_source.now();
                let alarm_at = now.plus_seconds(VOTE_TIMEOUT_SECONDS);
                context.set_state(CoordinatorState::Voting { vote_timeout_start: now });
                actions.push(
                    CoordinatorAction::Update {
                        context: context.clone_context(),
                        alarm: Some(alarm_at),
                    },
                );
                // Ask every participant for its vote on the value.
                let n = context.role_context.participants.len();
                let mut i: usize = 0;
                while i < n
                    invariant
                        n == context.role_context.participants@.len(),
                        context@ == ctx0.with_state(
                            CoordinatorState::Voting { vote_timeout_start: now },
                        ),
                        ctx0.role_context.participants == context.role_context.participants@,
                        epoch == ctx0.epoch,
                        value == value0,
                        i <= n,
                        actions@.len() == i + 1,
                        is_coordinator_update(
                            actions@[0],
                            ctx0.with_state(CoordinatorState::Voting { vote_timeout_start: now }),
                            Some(now.spec_plus_seconds(VOTE_TIMEOUT_SECONDS)),
                        ),
                        forall|j: int|
                            0 <= j < i ==> actions@[1 + j] == CoordinatorAction::<
                                P,
                                V,
                                TS::Time,
                            >::SendMessage(
                                ctx0.role_context.participants[j].process,
                                TwoPhaseCommitMessage::VoteRequest(ctx0.epoch, value0),
                            ),
                    decreases n - i,
                {
                    actions.push(
                        CoordinatorAction::SendMessage(
                            context.role_context.participants[i].process.clone_process(),
                            TwoPhaseCommitMessage::VoteRequest(epoch, value.clone_value()),
                        ),
                    );
                    i += 1;
                }
                let r = Ok(actions);
                proof {
                    assert(r matches Ok(w) && w == actions);
                    assert(start_actions(ctx0, value0, now, actions@));
                }
                r
            },
            // In response to a request-for-vote notification, a vote event
            // provides the coordinator's own vote: the last word on whether
            // the epoch commits.
            CoordinatorEvent::Vote(vote) => {
                if !matches!(context.role_context.state, CoordinatorState::WaitingForVote) {
                    return Err(
                        AlgorithmError::InvalidState(
                            InvalidStateError::with_message(
                                "Vote event when not in WaitingForVote state".to_owned(),
                            ),
                        ),
                    );
                }
                let mut actions: Vec<CoordinatorAction<P, V, TS::Time>> = Vec::new();
                if vote {
                    // Decide commit: durably record the decision, and the
                    // epoch it was taken in, before any message carrying it
                    // can leave.
                    let mut context = context;
                    let current = context.epoch;
                    context.set_last_commit_epoch(Some(current));
                    context.set_state(CoordinatorState::Commit);
                    actions.push(
                        CoordinatorAction::Update { context: context.clone_context(), alarm: None },
                    );
                    let ghost committed = ctx0.with_last_commit_epoch(Some(ctx0.epoch)).with_state(
                        CoordinatorState::Commit,
                    );
                    let epoch = context.epoch;
                    let n = context.role_context.participants.len();
                    let mut i: usize = 0;
                    while i < n
                        invariant
                            n == context.role_context.participants@.len(),
                            context@ == committed,
                            ctx0.role_context.participants == (
                            context.role_context.participants@),
                            epoch == ctx0.epoch,
                            i <= n,
                            committed == ctx0.with_last_commit_epoch(Some(ctx0.epoch)).with_state(
                                CoordinatorState::Commit,
                            ),
                            actions@.len() == i + 1,
                            is_coordinator_update(actions@[0], committed, None),
                            forall|j: int|
                                0 <= j < i ==> actions@[j + 1] == CoordinatorAction::<
                                    P,
                                    V,
                                    TS::Time,
                                >::SendMessage(
                                    ctx0.role_context.participants[j].process,
                                    TwoPhaseCommitMessage::Commit(ctx0.epoch),
                                ),
                        decreases n - i,
                    {
                        actions.push(
                            CoordinatorAction::SendMessage(
                                context.role_context.participants[i].process.clone_process(),
                                TwoPhaseCommitMessage::Commit(epoch),
                            ),
                        );
                        i += 1;
                    }
                    let ghost with_sends = actions@;
                    actions.push(
                        CoordinatorAction::Notify(CoordinatorActionNotification::Commit()),
                    );
                    let ghost with_notify = actions@;
                    self.push_wait_for_decision_ack(&mut context, &mut actions);
                    proof {
                        let now = choose|now: TS::Time|
                            #[trigger] wait_for_ack_step::<P, V, TS::Time>(
                                committed,
                                now,
                                context@,
                                actions@.last(),
                            );
                        let nlen = ctx0.role_context.participants.len() as int;
                        assert(actions@.subrange(0, with_notify.len() as int) == with_notify);
                        assert forall|m: int| 0 <= m < with_notify.len() implies #[trigger] actions@[m]
                            == with_notify[m] by {
                            assert(actions@.subrange(0, with_notify.len() as int)[m]
                                == actions@[m]);
                        }
                        assert(actions@[0] == with_notify[0]);
                        assert(with_notify[0] == with_sends[0]);
                        assert(is_coordinator_update(actions@[0], committed, None));
                        assert forall|j: int| 0 <= j < nlen implies actions@[1 + j]
                            == CoordinatorAction::<P, V, TS::Time>::SendMessage(
                            ctx0.role_context.participants[j].process,
                            TwoPhaseCommitMessage::Commit(ctx0.epoch),
                        ) by {
                            assert(actions@[1 + j] == with_notify[1 + j]);
                            assert(with_notify[1 + j] == with_sends[1 + j]);
                        }
                        assert(actions@[nlen + 1] == with_notify[nlen + 1]);
                        assert(actions@[nlen + 2] == actions@.last());
                        assert(commit_actions(ctx0, now, actions@));
                    }
                    let r = Ok(actions);
                    proof {
                        assert(r matches Ok(w) && w == actions);
                        assert(coordinator_vote_result(ctx0, vote, r));
                    }
                    r
                } else {
                    self.push_abort_actions(context, &mut actions);
                    let r = Ok(actions);
                    proof {
                        let now = choose|now: TS::Time|
                            #[trigger] abort_actions(ctx0, now, actions@.skip(0));
                        assert(actions@.skip(0) =~= actions@);
                        assert(abort_actions(ctx0, now, actions@));
                        assert(r matches Ok(w) && w == actions);
                        assert(coordinator_vote_result(ctx0, vote, r));
                    }
                    r
                }
            },
            // An alarm may arrive whenever an update action armed one; in
            // the idle states it is answered by repeating the pending
            // request, and in the decided states by advancing the epoch.
            CoordinatorEvent::Alarm() => {
                match context.role_context.state {
                    // A vote timeout may have occurred: we have not received
                    // all votes in time. A premature alarm is ignored; the
                    // embedder will wake us again.
                    CoordinatorState::Voting { vote_timeout_start } => {
                        let now1 = self.time_source.now();
                        let deadline = vote_timeout_start.plus_seconds(VOTE_TIMEOUT_SECONDS);
                        let mut actions: Vec<CoordinatorAction<P, V, TS::Time>> = Vec::new();
                        if now1.is_after(&deadline) {
                            self.push_abort_actions(context, &mut actions);
                            let r = Ok(actions);
                            proof {
                                let now2 = choose|now2: TS::Time|
                                    #[trigger] abort_actions(ctx0, now2, actions@.skip(0));
                                assert(actions@.skip(0) =~= actions@);
                                assert(abort_actions(ctx0, now2, actions@));
                                assert(r matches Ok(w) && w == actions);
                                assert(voting_alarm_outcome(ctx0, vote_timeout_start, now1, r));
                            }
                            r
                        } else {
                            let r = Ok(actions);
                            proof {
                                assert(voting_alarm_outcome(ctx0, vote_timeout_start, now1, r));
                            }
                            r
                        }
                    },
                    // An alarm in the idle state is expected during
                    // initialization, as the very first event: re-issue the
                    // request for a start value.
                    CoordinatorState::WaitingForStart => {
                        let mut actions: Vec<CoordinatorAction<P, V, TS::Time>> = Vec::new();
                        actions.push(
                            CoordinatorAction::Notify(
                                CoordinatorActionNotification::RequestForStart(),
                            ),
                        );
                        actions.push(CoordinatorAction::Update { context, alarm: None });
                        Ok(actions)
                    },
                    // Unexpected, but recoverable: re-issue the request for
                    // the coordinator's own vote.
                    CoordinatorState::WaitingForVote => {
                        let mut actions: Vec<CoordinatorAction<P, V, TS::Time>> = Vec::new();
                        actions.push(
                            CoordinatorAction::Notify(
                                CoordinatorActionNotification::RequestForVote(),
                            ),
                        );
                        actions.push(CoordinatorAction::Update { context, alarm: None });
                        Ok(actions)
                    },
                    // An acknowledgement timeout may have occurred. Waiting
                    // for acknowledgements only narrows the race window in
                    // which a new epoch's vote request could overtake the
                    // decision at a participant, so after the timeout the
                    // engine simply advances; whoever has not acknowledged
                    // recovers through the decision-request subprotocol.
                    CoordinatorState::WaitingForDecisionAck { ack_timeout_start } => {
                        let now1 = self.time_source.now();
                        let deadline = ack_timeout_start.plus_seconds(ACK_TIMEOUT_SECONDS);
                        if now1.is_after(&deadline) {
                            if context.epoch == Epoch::MAX {
                                let r = Err(
                                    AlgorithmError::Internal(
                                        InternalError::with_message(
                                            "the epoch counter is exhausted".to_owned(),
                                        ),
                                    ),
                                );
                                proof {
                                    assert(ack_alarm_outcome(ctx0, ack_timeout_start, now1, r));
                                }
                                return r;
                            }
                            let mut context = context;
                            let mut actions: Vec<CoordinatorAction<P, V, TS::Time>> = Vec::new();
                            self.push_advance_epoch_actions(&mut context, &mut actions);
                            let r = Ok(actions);
                            proof {
                                assert(actions@.skip(0) =~= actions@);
                                assert(ack_alarm_outcome(ctx0, ack_timeout_start, now1, r));
                            }
                            r
                        } else {
                            let actions: Vec<CoordinatorAction<P, V, TS::Time>> = Vec::new();
                            let r = Ok(actions);
                            proof {
                                assert(ack_alarm_outcome(ctx0, ack_timeout_start, now1, r));
                            }
                            r
                        }
                    },
                    // Unexpected, but recoverable: advance to the next
                    // epoch.
                    CoordinatorState::Commit | CoordinatorState::Abort => {
                        if context.epoch == Epoch::MAX {
                            return Err(
                                AlgorithmError::Internal(
                                    InternalError::with_message(
                                        "the epoch counter is exhausted".to_owned(),
                                    ),
                                ),
                            );
                        }
                        let mut context = context;
                        let mut actions: Vec<CoordinatorAction<P, V, TS::Time>> = Vec::new();
                        self.push_advance_epoch_actions(&mut context, &mut actions);
                        proof {
                            assert(actions@.skip(0) =~= actions@);
                        }
                        Ok(actions)
                    },
                }
            },
            // A participant answered our vote request: record the vote and,
            // once every participant has voted, move towards a decision.
            CoordinatorEvent::Deliver(process, CoordinatorMessage::VoteResponse(epoch, vote)) => {
                let ghost process0 = process;
                let mut context = context;
                let i = match find_participant(&context.role_context.participants, &process) {
                    Some(i) => i,
                    None => {
                        return Ok(
                            singleton_vec(
                                CoordinatorAction::Notify(
                                    CoordinatorActionNotification::MessageDropped(
                                        "sender process is not a participant".to_owned(),
                                    ),
                                ),
                            ),
                        );
                    },
                };
                proof {
                    lemma_first_participant_match_unique(
                        ctx0.role_context.participants,
                        process0,
                        i as int,
                    );
                }
                // A vote for another epoch can arrive under normal operation
                // when it was processed after a timeout; it is dropped, not
                // an error.
                if epoch != context.epoch {
                    return Ok(
                        singleton_vec(
                            CoordinatorAction::Notify(
                                CoordinatorActionNotification::MessageDropped(
                                    "epoch is not the current epoch".to_owned(),
                                ),
                            ),
                        ),
                    );
                }
                // Votes count only while the voting window is open.
                if !matches!(context.role_context.state, CoordinatorState::Voting { .. }) {
                    return Ok(
                        singleton_vec(
                            CoordinatorAction::Notify(
                                CoordinatorActionNotification::MessageDropped(
                                    "context state is not Voting".to_owned(),
                                ),
                            ),
                        ),
                    );
                }
                // Each participant votes once per epoch.
                if context.role_context.participants[i].vote.is_some() {
                    return Ok(
                        singleton_vec(
                            CoordinatorAction::Notify(
                                CoordinatorActionNotification::MessageDropped(
                                    "participant has already voted".to_owned(),
                                ),
                            ),
                        ),
                    );
                }
                let ghost ps = ctx0.role_context.participants;
                let record = &mut context.role_context.participants[i];
                record.vote = Some(vote);
                let ghost ps1 = ps.update(
                    i as int,
                    Participant { process: ps[i as int].process, vote: Some(vote), decision_ack: ps[i as int].decision_ack },
                );
                let ghost ctx1 = ctx0.with_participants(ps1);
                proof {
                    assert(context@.role_context.participants =~= ps1);
                    assert(context@ == ctx1);
                }
                let mut actions: Vec<CoordinatorAction<P, V, TS::Time>> = Vec::new();
                actions.push(
                    CoordinatorAction::Update { context: context.clone_context(), alarm: None },
                );
                if all_participants_voted(&context.role_context.participants) {
                    if some_participant_voted_no(&context.role_context.participants) {
                        // At least one no vote: the epoch aborts.
                        let ghost first = actions@;
                        self.push_abort_actions(context, &mut actions);
                        let r = Ok(actions);
                        proof {
                            let now = choose|now: TS::Time|
                                #[trigger] abort_actions(ctx1, now, actions@.skip(1));
                            assert(actions@.subrange(0, 1) == first);
                            assert(actions@[0] == first[0]);
                            lemma_first_participant_match_unique(ps, process0, i as int);
                            assert(r matches Ok(w) && w == actions);
                            assert(vote_response_actions(ctx0, process0, epoch, vote, actions@));
                            assert(coordinator_event_ensures(event0, ctx0, r));
                        }
                        r
                    } else {
                        // Every participant voted yes: give the coordinator
                        // one last opportunity to vote no by asking its
                        // embedder for the local vote.
                        context.set_state(CoordinatorState::WaitingForVote);
                        actions.push(CoordinatorAction::Update { context, alarm: None });
                        actions.push(
                            CoordinatorAction::Notify(
                                CoordinatorActionNotification::RequestForVote(),
                            ),
                        );
                        proof {
                            lemma_first_participant_match_unique(ps, process0, i as int);
                            assert(vote_response_actions(ctx0, process0, epoch, vote, actions@));
                        }
                        Ok(actions)
                    }
                } else {
                    proof {
                        lemma_first_participant_match_unique(ps, process0, i as int);
                        assert(vote_response_actions(ctx0, process0, epoch, vote, actions@));
                    }
                    Ok(actions)
                }
            },
            // A peer that timed out in its uncertainty period asks for the
            // decision; answer it when the record allows one.
            CoordinatorEvent::Deliver(process, CoordinatorMessage::DecisionRequest(epoch)) => {
                if find_participant(&context.role_context.participants, &process).is_none() {
                    return Ok(
                        singleton_vec(
                            CoordinatorAction::Notify(
                                CoordinatorActionNotification::MessageDropped(
                                    "sender process is not a participant".to_owned(),
                                ),
                            ),
                        ),
                    );
                }
                let answered = match context.last_commit_epoch {
                    Some(last_commit) => if epoch == last_commit {
                        // The asked-about epoch is the recorded last commit.
                        Some(
                            singleton_vec(
                                CoordinatorAction::SendMessage(
                                    process,
                                    TwoPhaseCommitMessage::Commit(epoch),
                                ),
                            ),
                        )
                    } else if epoch < context.epoch && epoch > last_commit {
                        // The epoch passed us by after the last commit, so
                        // its decision can only have been abort.
                        Some(
                            singleton_vec(
                                CoordinatorAction::SendMessage(
                                    process,
                                    TwoPhaseCommitMessage::Abort(epoch),
                                ),
                            ),
                        )
                    } else {
                        None
                    },
                    None => if epoch < context.epoch {
                        Some(
                            singleton_vec(
                                CoordinatorAction::SendMessage(
                                    process,
                                    TwoPhaseCommitMessage::Abort(epoch),
                                ),
                            ),
                        )
                    } else {
                        None
                    },
                };
                match answered {
                    Some(actions) => Ok(actions),
                    // Before the last commit epoch no peer can still be
                    // uncertain, and from the current epoch on nothing is
                    // decided yet: no answer is possible.
                    None => Ok(
                        singleton_vec(
                            CoordinatorAction::Notify(
                                CoordinatorActionNotification::MessageDropped(
                                    "decision unknown".to_owned(),
                                ),
                            ),
                        ),
                    ),
                }
            },
            // A participant confirms it processed the decision: record the
            // acknowledgement and, once every participant has acknowledged,
            // advance to the next epoch.
            CoordinatorEvent::Deliver(process, CoordinatorMessage::DecisionAck(epoch)) => {
                let ghost process0 = process;
                let mut context = context;
                let i = match find_participant(&context.role_context.participants, &process) {
                    Some(i) => i,
                    None => {
                        return Ok(
                            singleton_vec(
                                CoordinatorAction::Notify(
                                    CoordinatorActionNotification::MessageDropped(
                                        "sender process is not a participant".to_owned(),
                                    ),
                                ),
                            ),
                        );
                    },
                };
                proof {
                    lemma_first_participant_match_unique(
                        ctx0.role_context.participants,
                        process0,
                        i as int,
                    );
                }
                // An acknowledgement for another epoch can arrive under
                // normal operation when it was processed after a timeout; it
                // is dropped, not an error.
                if epoch != context.epoch {
                    return Ok(
                        singleton_vec(
                            CoordinatorAction::Notify(
                                CoordinatorActionNotification::MessageDropped(
                                    "epoch is not the current epoch".to_owned(),
                                ),
                            ),
                        ),
                    );
                }
                // Acknowledgements count only while they are being waited
                // for.
                if !matches!(
                    context.role_context.state,
                    CoordinatorState::WaitingForDecisionAck { .. },
                ) {
                    return Ok(
                        singleton_vec(
                            CoordinatorAction::Notify(
                                CoordinatorActionNotification::MessageDropped(
                                    "context state is not WaitingForDecisionAck".to_owned(),
                                ),
                            ),
                        ),
                    );
                }
                // Each participant acknowledges once per epoch.
                if context.role_context.participants[i].decision_ack {
                    return Ok(
                        singleton_vec(
                            CoordinatorAction::Notify(
                                CoordinatorActionNotification::MessageDropped(
                                    "participant has already sent a decision ack".to_owned(),
                                ),
                            ),
                        ),
                    );
                }
                let ghost ps = ctx0.role_context.participants;
                let record = &mut context.role_context.participants[i];
                record.decision_ack = true;
                let ghost ps1 = ps.update(
                    i as int,
                    Participant { process: ps[i as int].process, vote: ps[i as int].vote, decision_ack: true },
                );
                let ghost ctx1 = ctx0.with_participants(ps1);
                proof {
                    assert(context@.role_context.participants =~= ps1);
                    assert(context@ == ctx1);
                }
                let mut actions: Vec<CoordinatorAction<P, V, TS::Time>> = Vec::new();
                actions.push(
                    CoordinatorAction::Update { context: context.clone_context(), alarm: None },
                );
                if all_participants_acked(&context.role_context.participants) {
                    if context.epoch == Epoch::MAX {
                        let r = Err(
                            AlgorithmError::Internal(
                                InternalError::with_message(
                                    "the epoch counter is exhausted".to_owned(),
                                ),
                            ),
                        );
                        proof {
                            lemma_first_participant_match_unique(ps, process0, i as int);
                            assert(decision_ack_result(ctx0, process0, epoch, r));
                        }
                        return r;
                    }
                    let ghost first = actions@;
                    self.push_advance_epoch_actions(&mut context, &mut actions);
                    proof {
                        assert(actions@.subrange(0, 1) == first);
                        assert(actions@[0] == first[0]);
                        lemma_first_participant_match_unique(ps, process0, i as int);
                        assert(decision_ack_result(ctx0, process0, epoch, Result::<
                            Vec<CoordinatorAction<P, V, TS::Time>>,
                            AlgorithmError,
                        >::Ok(actions)));
                    }
                    Ok(actions)
                } else {
                    proof {
                        lemma_first_participant_match_unique(ps, process0, i as int);
                    }
                    Ok(actions)
                }
            },
        }
    }
}

} // verus!
