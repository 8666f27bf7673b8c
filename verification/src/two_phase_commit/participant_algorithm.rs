//! The participant algorithm and its specification.
//!
//! The executable engine is [`ParticipantAlgorithm`]; every action list it
//! returns is pinned down, up to the instants its time source reported, by
//! the specification functions in this module.

use vstd::prelude::*;

use crate::algorithm::Algorithm;
use crate::algorithm::Value;
use crate::error::AlgorithmError;
use crate::error::InvalidStateError;
use crate::process::Process;
use crate::time::Time;
use crate::time::TimeSource;

use super::coordinator_algorithm::decision_answer;
use super::coordinator_algorithm::is_invalid_state_error;
use super::coordinator_algorithm::DecisionAnswer;
use super::participant_action::ParticipantAction;
use super::participant_action::ParticipantActionNotification;
use super::participant_context::ParticipantContext;
use super::participant_context::ParticipantContextView;
use super::participant_context::ParticipantState;
use super::participant_event::ParticipantEvent;
use super::participant_message::ParticipantMessage;
use super::unified_context::TwoPhaseCommitContext;
use super::unified_context::TwoPhaseCommitContextView;
use super::unified_message::TwoPhaseCommitMessage;
use super::Epoch;

verus! {

/// Seconds a participant waits for the decision after voting yes before it
/// asks its peers through the decision-request subprotocol.
pub const DECISION_TIMEOUT_SECONDS: u64 = 30;

/// Whether the action is an update carrying the given context (compared by
/// mathematical content) and alarm.
pub open spec fn is_participant_update<P: Process, V: Value, T: Time>(
    a: ParticipantAction<P, V, T>,
    context: TwoPhaseCommitContextView<P, T, ParticipantContextView<P, T>>,
    alarm: Option<T>,
) -> bool {
    a matches ParticipantAction::Update { context: c, alarm: al } && c@ == context && al == alarm
}

/// Whether the action is a message-dropped notification whose reason reads
/// as the given text.
pub open spec fn is_participant_dropped<P: Process, V: Value, T: Time>(
    a: ParticipantAction<P, V, T>,
    reason: Seq<char>,
) -> bool {
    a matches ParticipantAction::Notify(ParticipantActionNotification::MessageDropped(m)) && m@
        == reason
}

/// Whether the action list consists of one message-dropped notification
/// with the given reason.
pub open spec fn participant_dropped_only<P: Process, V: Value, T: Time>(
    actions: Seq<ParticipantAction<P, V, T>>,
    reason: Seq<char>,
) -> bool {
    actions.len() == 1 && is_participant_dropped(actions[0], reason)
}

/// Whether some entry of the process list is the given process.
pub open spec fn process_listed<P: Process>(ps: Seq<P>, p: P) -> bool {
    exists|i: int| 0 <= i < ps.len() && ps[i]@ == p@
}

/// Whether the wait for a decision that started at the given instant has
/// timed out by instant `now`.
pub open spec fn decision_timeout_expired<T: Time>(decision_timeout_start: T, now: T) -> bool {
    decision_timeout_start.spec_plus_seconds(DECISION_TIMEOUT_SECONDS).spec_before(now)
}

/// The decision-request messages a timed-out participant sends: one to each
/// process of the peer list other than itself, in list order.
pub open spec fn decision_request_sends<P: Process, V: Value, T: Time>(
    ps: Seq<P>,
    this: P,
    epoch: Epoch,
) -> Seq<ParticipantAction<P, V, T>>
    decreases ps.len(),
{
    if ps.len() == 0 {
        Seq::empty()
    } else {
        let rest = decision_request_sends::<P, V, T>(ps.drop_last(), this, epoch);
        if ps.last()@ != this@ {
            rest.push(
                ParticipantAction::SendMessage(
                    ps.last(),
                    TwoPhaseCommitMessage::DecisionRequest(epoch),
                ),
            )
        } else {
            rest
        }
    }
}

/// Whether the action list restarts the termination protocol at instant
/// `now`: a decision request to every other participant and to the
/// coordinator, then an update that re-arms the decision timeout.
pub open spec fn decision_request_resend<P: Process, V: Value, T: Time>(
    ctx: TwoPhaseCommitContextView<P, T, ParticipantContextView<P, T>>,
    vote: bool,
    now: T,
    actions: Seq<ParticipantAction<P, V, T>>,
) -> bool {
    let sends = decision_request_sends::<P, V, T>(
        ctx.role_context.participant_processes,
        ctx.this_process,
        ctx.epoch,
    );
    let k = sends.len() as int;
    &&& actions.len() == k + 2
    &&& actions.subrange(0, k) == sends
    &&& actions[k] == ParticipantAction::<P, V, T>::SendMessage(
        ctx.coordinator,
        TwoPhaseCommitMessage::DecisionRequest(ctx.epoch),
    )
    &&& is_participant_update(
        actions[k + 1],
        ctx.with_state(ParticipantState::Voted { vote, decision_timeout_start: now }),
        Some(now.spec_plus_seconds(DECISION_TIMEOUT_SECONDS)),
    )
}

/// Whether the result processes an alarm that went off in the voted state,
/// the timeout being judged against instant `now1`: an expired wait
/// restarts the termination protocol; a premature alarm is ignored.
pub open spec fn voted_alarm_outcome<P: Process, V: Value, T: Time>(
    ctx: TwoPhaseCommitContextView<P, T, ParticipantContextView<P, T>>,
    vote: bool,
    decision_timeout_start: T,
    now1: T,
    r: Result<Vec<ParticipantAction<P, V, T>>, AlgorithmError>,
) -> bool {
    if decision_timeout_expired(decision_timeout_start, now1) {
        r matches Ok(v) && exists|now2: T| #[trigger] decision_request_resend(ctx, vote, now2, v@)
    } else {
        r matches Ok(v) && v@.len() == 0
    }
}

/// Whether the result processes an alarm: only the voted state carries a
/// timer, so an alarm in any other state is embedder misuse.
pub open spec fn participant_alarm_result<P: Process, V: Value, T: Time>(
    ctx: TwoPhaseCommitContextView<P, T, ParticipantContextView<P, T>>,
    r: Result<Vec<ParticipantAction<P, V, T>>, AlgorithmError>,
) -> bool {
    match ctx.role_context.state {
        ParticipantState::Abort => r matches Err(e) && is_invalid_state_error(
            e,
            "Alarm unexpected in Abort state"@,
        ),
        ParticipantState::Commit => r matches Err(e) && is_invalid_state_error(
            e,
            "Alarm unexpected in Commit state"@,
        ),
        ParticipantState::Voted { vote, decision_timeout_start } => exists|now1: T|
            #[trigger] voted_alarm_outcome(ctx, vote, decision_timeout_start, now1, r),
        ParticipantState::WaitingForVote => r matches Err(e) && is_invalid_state_error(
            e,
            "Alarm unexpected in WaitForVote state"@,
        ),
        ParticipantState::WaitingForVoteRequest => r matches Err(e) && is_invalid_state_error(
            e,
            "Alarm unexpected in WaitForVoteRequest state"@,
        ),
    }
}

/// Whether the action list answers a vote request for epoch `e` on the
/// given value: the embedder is asked for its vote after the context has
/// moved into the vote-awaiting state. Requests from anyone but the
/// coordinator, for other epochs, or outside the idle state are dropped.
pub open spec fn vote_request_actions<P: Process, V: Value, T: Time>(
    ctx: TwoPhaseCommitContextView<P, T, ParticipantContextView<P, T>>,
    p: P,
    e: Epoch,
    value: V,
    actions: Seq<ParticipantAction<P, V, T>>,
) -> bool {
    if ctx.coordinator@ != p@ {
        participant_dropped_only(actions, "sender process is not the coordinator"@)
    } else if e != ctx.epoch {
        participant_dropped_only(actions, "epoch is not the current epoch"@)
    } else if !(ctx.role_context.state is WaitingForVoteRequest) {
        participant_dropped_only(actions, "context state is not WaitingForVoteRequest"@)
    } else {
        &&& actions.len() == 2
        &&& is_participant_update(actions[0], ctx.with_state(ParticipantState::WaitingForVote), None)
        &&& actions[1] == ParticipantAction::<P, V, T>::Notify(
            ParticipantActionNotification::RequestForVote(value),
        )
    }
}

/// Whether the action list records a commit decision for epoch `e`:
/// messages for other epochs or outside the uncertainty window are dropped.
pub open spec fn commit_message_actions<P: Process, V: Value, T: Time>(
    ctx: TwoPhaseCommitContextView<P, T, ParticipantContextView<P, T>>,
    e: Epoch,
    actions: Seq<ParticipantAction<P, V, T>>,
) -> bool {
    if e != ctx.epoch {
        participant_dropped_only(actions, "epoch is not the current epoch"@)
    } else if !(ctx.role_context.state matches ParticipantState::Voted { .. }) {
        participant_dropped_only(actions, "commit received outside decision window"@)
    } else {
        actions.len() == 1 && is_participant_update(
            actions[0],
            ctx.with_state(ParticipantState::Commit),
            None,
        )
    }
}

/// Whether the action list records an abort decision for epoch `e`:
/// messages for other epochs or outside the uncertainty window are dropped.
pub open spec fn abort_message_actions<P: Process, V: Value, T: Time>(
    ctx: TwoPhaseCommitContextView<P, T, ParticipantContextView<P, T>>,
    e: Epoch,
    actions: Seq<ParticipantAction<P, V, T>>,
) -> bool {
    if e != ctx.epoch {
        participant_dropped_only(actions, "epoch is not the current epoch"@)
    } else if !(ctx.role_context.state matches ParticipantState::Voted { .. }) {
        participant_dropped_only(actions, "abort received outside decision window"@)
    } else {
        actions.len() == 1 && is_participant_update(
            actions[0],
            ctx.with_state(ParticipantState::Abort),
            None,
        )
    }
}

/// Whether the action list answers a decision request from process `p`
/// about epoch `e`: the recorded decision when one can be deduced, a
/// message-dropped notification otherwise or when the sender is neither a
/// listed participant nor the coordinator.
pub open spec fn participant_decision_request_actions<P: Process, V: Value, T: Time>(
    ctx: TwoPhaseCommitContextView<P, T, ParticipantContextView<P, T>>,
    p: P,
    e: Epoch,
    actions: Seq<ParticipantAction<P, V, T>>,
) -> bool {
    if !process_listed(ctx.role_context.participant_processes, p) && ctx.coordinator@ != p@ {
        participant_dropped_only(actions, "sender process is not a coordinator or participant"@)
    } else {
        match decision_answer(ctx.epoch, ctx.last_commit_epoch, e) {
            DecisionAnswer::Commit => actions.len() == 1 && actions[0] == ParticipantAction::<
                P,
                V,
                T,
            >::SendMessage(p, TwoPhaseCommitMessage::Commit(e)),
            DecisionAnswer::Abort => actions.len() == 1 && actions[0] == ParticipantAction::<
                P,
                V,
                T,
            >::SendMessage(p, TwoPhaseCommitMessage::Abort(e)),
            DecisionAnswer::Unknown => participant_dropped_only(actions, "decision unknown"@),
        }
    }
}

/// Whether the result processes the embedder's vote: a yes enters the
/// uncertainty window at instant `now` with the decision timeout armed, a
/// no decides abort locally; either way the vote is sent to the
/// coordinator. A vote is embedder misuse when none is awaited.
pub open spec fn participant_vote_result<P: Process, V: Value, T: Time>(
    ctx: TwoPhaseCommitContextView<P, T, ParticipantContextView<P, T>>,
    vote: bool,
    r: Result<Vec<ParticipantAction<P, V, T>>, AlgorithmError>,
) -> bool {
    if !(ctx.role_context.state is WaitingForVote) {
        r matches Err(e) && is_invalid_state_error(
            e,
            "Vote event when not in WaitingForVote state"@,
        )
    } else if vote {
        r matches Ok(v) && exists|now: T| #[trigger] participant_yes_vote_actions(ctx, now, v@)
    } else {
        r matches Ok(v) && {
            &&& v@.len() == 2
            &&& is_participant_update(v@[0], ctx.with_state(ParticipantState::Abort), None)
            &&& v@[1] == ParticipantAction::<P, V, T>::SendMessage(
                ctx.coordinator,
                TwoPhaseCommitMessage::VoteResponse(ctx.epoch, false),
            )
        }
    }
}

/// Whether the action list records a local yes vote at instant `now`: an
/// update into the uncertainty window with the decision timeout armed, then
/// the vote to the coordinator.
pub open spec fn participant_yes_vote_actions<P: Process, V: Value, T: Time>(
    ctx: TwoPhaseCommitContextView<P, T, ParticipantContextView<P, T>>,
    now: T,
    actions: Seq<ParticipantAction<P, V, T>>,
) -> bool {
    &&& actions.len() == 2
    &&& is_participant_update(
        actions[0],
        ctx.with_state(ParticipantState::Voted { vote: true, decision_timeout_start: now }),
        Some(now.spec_plus_seconds(DECISION_TIMEOUT_SECONDS)),
    )
    &&& actions[1] == ParticipantAction::<P, V, T>::SendMessage(
        ctx.coordinator,
        TwoPhaseCommitMessage::VoteResponse(ctx.epoch, true),
    )
}

/// What the participant algorithm guarantees of the result of processing an
/// event: for some instants `now` that its time source reported, the result
/// is the one the specification functions of this module prescribe.
pub open spec fn participant_event_ensures<P: Process, V: Value, T: Time>(
    event: ParticipantEvent<P, V>,
    ctx: TwoPhaseCommitContextView<P, T, ParticipantContextView<P, T>>,
    r: Result<Vec<ParticipantAction<P, V, T>>, AlgorithmError>,
) -> bool {
    match event {
        ParticipantEvent::Alarm() => participant_alarm_result(ctx, r),
        ParticipantEvent::Vote(vote) => participant_vote_result(ctx, vote, r),
        ParticipantEvent::Deliver(p, m) => match m {
            ParticipantMessage::VoteRequest(e, value) => r matches Ok(v) && vote_request_actions(
                ctx,
                p,
                e,
                value,
                v@,
            ),
            ParticipantMessage::Commit(e) => r matches Ok(v) && commit_message_actions(ctx, e, v@),
            ParticipantMessage::Abort(e) => r matches Ok(v) && abort_message_actions(ctx, e, v@),
            ParticipantMessage::DecisionRequest(e) => r matches Ok(v)
                && participant_decision_request_actions(ctx, p, e, v@),
        },
    }
}

/// Returns whether some entry of the process list is the given process.
pub fn process_list_contains<P: Process>(ps: &Vec<P>, p: &P) -> (r: bool)
    ensures
        r == process_listed(ps@, *p),
{
    let mut i: usize = 0;
    while i < ps.len()
        invariant
            i <= ps@.len(),
            forall|j: int| 0 <= j < i ==> ps@[j]@ != p@,
        decreases ps@.len() - i,
    {
        if ps[i].eq_process(p) {
            return true;
        }
        i += 1;
    }
    false
}

/// A participant's side of the two-phase-commit protocol.
///
/// The engine is a pure function from an event and a context to a list of
/// actions; it keeps nothing between calls but its time source.
pub struct ParticipantAlgorithm<P, V, TS> {
    /// Where the engine reads the current time.
    pub time_source: TS,
    /// Marks the process and value types the engine is built for.
    pub marker: core::marker::PhantomData<(P, V)>,
}

impl<P: Process, V: Value, TS: TimeSource> ParticipantAlgorithm<P, V, TS> {
    /// Builds a participant engine around the given time source.
    pub fn new(time_source: TS) -> (r: Self)
        ensures
            r.time_source == time_source,
    {
        ParticipantAlgorithm { time_source, marker: core::marker::PhantomData }
    }
}

impl<P: Process, V: Value, TS: TimeSource> Algorithm for ParticipantAlgorithm<P, V, TS> {
    type Event = ParticipantEvent<P, V>;

    type Action = ParticipantAction<P, V, TS::Time>;

    type Context = TwoPhaseCommitContext<P, TS::Time, ParticipantContext<P, TS::Time>>;

    /// Processes an event with a given context, producing the actions the
    /// specification functions of this module prescribe.
    fn event(
        &self,
        event: ParticipantEvent<P, V>,
        context: TwoPhaseCommitContext<P, TS::Time, ParticipantContext<P, TS::Time>>,
    ) -> (r: Result<Vec<ParticipantAction<P, V, TS::Time>>, AlgorithmError>)
        ensures
            participant_event_ensures(event, context@, r),
    {
        let ghost ctx0 = context@;
        match event {
            // An alarm may arrive only while the participant waits for the
            // decision; everywhere else it is embedder misuse.
            ParticipantEvent::Alarm() => match context.role_context.state {
                ParticipantState::Abort => Err(
                    AlgorithmError::InvalidState(
                        InvalidStateError::with_message(
                            "Alarm unexpected in Abort state".to_owned(),
                        ),
                    ),
                ),
                ParticipantState::Commit => Err(
                    AlgorithmError::InvalidState(
                        InvalidStateError::with_message(
                            "Alarm unexpected in Commit state".to_owned(),
                        ),
                    ),
                ),
                // The decision timed out: ask every peer for it and re-arm
                // the timeout. A premature alarm is ignored; the embedder
                // will wake us again.
                ParticipantState::Voted { vote, decision_timeout_start } => {
                    let now1 = self.time_source.now();
                    let deadline = decision_timeout_start.plus_seconds(DECISION_TIMEOUT_SECONDS);
                    if now1.is_after(&deadline) {
                        let mut context = context;
                        let mut actions: Vec<ParticipantAction<P, V, TS::Time>> = Vec::new();
                        let epoch = context.epoch;
                        let n = context.role_context.participant_processes.len();
                        let ghost ps0 = ctx0.role_context.participant_processes;
                        proof {
                            assert(ps0.subrange(0, 0) =~= Seq::<P>::empty());
                        }
                        let mut i: usize = 0;
                        while i < n
                            invariant
                                n == context.role_context.participant_processes@.len(),
                                context@ == ctx0,
                                ps0 == ctx0.role_context.participant_processes,
                                epoch == ctx0.epoch,
                                i <= n,
                                actions@ == decision_request_sends::<P, V, TS::Time>(
                                    ps0.subrange(0, i as int),
                                    ctx0.this_process,
                                    ctx0.epoch,
                                ),
                            decreases n - i,
                        {
                            let ghost sofar = actions@;
                            let to_other = !context.role_context.participant_processes[
                                i
                            ].eq_process(&context.this_process);
                            if to_other {
                                actions.push(
                                    ParticipantAction::SendMessage(
                                        context.role_context.participant_processes[
                                            i
                                        ].clone_process(),
                                        TwoPhaseCommitMessage::DecisionRequest(epoch),
                                    ),
                                );
                            }
                            proof {
                                let s1 = ps0.subrange(0, i + 1 as int);
                                assert(s1.drop_last() =~= ps0.subrange(0, i as int));
                                assert(s1.last() == ps0[i as int]);
                            }
                            i += 1;
                        }
                        proof {
                            assert(ps0.subrange(0, n as int) =~= ps0);
                        }
                        let ghost sends = actions@;
                        actions.push(
                            ParticipantAction::SendMessage(
                                context.coordinator.clone_process(),
                                TwoPhaseCommitMessage::DecisionRequest(epoch),
                            ),
                        );
                        // Re-arm the decision timeout from a fresh reading
                        // of the clock.
                        let now2 = self.time_source.now();
                        let alarm_at = now2.plus_seconds(DECISION_TIMEOUT_SECONDS);
                        context.set_state(
                            ParticipantState::Voted { vote, decision_timeout_start: now2 },
                        );
                        actions.push(
                            ParticipantAction::Update { context, alarm: Some(alarm_at) },
                        );
                        let r = Ok(actions);
                        proof {
                            let k = sends.len() as int;
                            assert(actions@.subrange(0, k) =~= sends);
                            assert(actions@[k] == ParticipantAction::<P, V, TS::Time>::SendMessage(
                                ctx0.coordinator,
                                TwoPhaseCommitMessage::DecisionRequest(ctx0.epoch),
                            ));
                            assert(decision_request_resend(ctx0, vote, now2, actions@));
                            assert(r matches Ok(w) && w == actions);
                            assert(voted_alarm_outcome(
                                ctx0,
                                vote,
                                decision_timeout_start,
                                now1,
                                r,
                            ));
                        }
                        r
                    } else {
                        let actions: Vec<ParticipantAction<P, V, TS::Time>> = Vec::new();
                        let r = Ok(actions);
                        proof {
                            assert(voted_alarm_outcome(
                                ctx0,
                                vote,
                                decision_timeout_start,
                                now1,
                                r,
                            ));
                        }
                        r
                    }
                },
                ParticipantState::WaitingForVote => Err(
                    AlgorithmError::InvalidState(
                        InvalidStateError::with_message(
                            "Alarm unexpected in WaitForVote state".to_owned(),
                        ),
                    ),
                ),
                ParticipantState::WaitingForVoteRequest => Err(
                    AlgorithmError::InvalidState(
                        InvalidStateError::with_message(
                            "Alarm unexpected in WaitForVoteRequest state".to_owned(),
                        ),
                    ),
                ),
            },
            // The coordinator asks for our vote on a value: hand the
            // question to the embedder.
            ParticipantEvent::Deliver(process, ParticipantMessage::VoteRequest(epoch, value)) => {
                // A vote request must come from the coordinator.
                if !context.coordinator.eq_process(&process) {
                    return Ok(
                        participant_dropped(
                            "sender process is not the coordinator",
                        ),
                    );
                }
                // A vote request counts only for the current epoch.
                if epoch != context.epoch {
                    return Ok(participant_dropped("epoch is not the current epoch"));
                }
                // A vote request can be processed only while waiting for
                // one.
                if !matches!(context.role_context.state, ParticipantState::WaitingForVoteRequest) {
                    return Ok(
                        participant_dropped(
                            "context state is not WaitingForVoteRequest",
                        ),
                    );
                }
                let mut context = context;
                let mut actions: Vec<ParticipantAction<P, V, TS::Time>> = Vec::new();
                context.set_state(ParticipantState::WaitingForVote);
                actions.push(ParticipantAction::Update { context, alarm: None });
                actions.push(
                    ParticipantAction::Notify(ParticipantActionNotification::RequestForVote(value)),
                );
                Ok(actions)
            },
            // The coordinator announced commit: record the decision.
            ParticipantEvent::Deliver(_process, ParticipantMessage::Commit(epoch)) => {
                if epoch != context.epoch {
                    return Ok(participant_dropped("epoch is not the current epoch"));
                }
                if !matches!(context.role_context.state, ParticipantState::Voted { .. }) {
                    return Ok(participant_dropped("commit received outside decision window"));
                }
                let mut context = context;
                let mut actions: Vec<ParticipantAction<P, V, TS::Time>> = Vec::new();
                context.set_state(ParticipantState::Commit);
                actions.push(ParticipantAction::Update { context, alarm: None });
                Ok(actions)
            },
            // The coordinator announced abort: record the decision.
            ParticipantEvent::Deliver(_process, ParticipantMessage::Abort(epoch)) => {
                if epoch != context.epoch {
                    return Ok(participant_dropped("epoch is not the current epoch"));
                }
                if !matches!(context.role_context.state, ParticipantState::Voted { .. }) {
                    return Ok(participant_dropped("abort received outside decision window"));
                }
                let mut context = context;
                let mut actions: Vec<ParticipantAction<P, V, TS::Time>> = Vec::new();
                context.set_state(ParticipantState::Abort);
                actions.push(ParticipantAction::Update { context, alarm: None });
                Ok(actions)
            },
            // A peer that timed out in its uncertainty period asks for the
            // decision; answer it when the record allows one.
            ParticipantEvent::Deliver(process, ParticipantMessage::DecisionRequest(epoch)) => {
                let listed = process_list_contains(
                    &context.role_context.participant_processes,
                    &process,
                );
                if !listed && !context.coordinator.eq_process(&process) {
                    return Ok(
                        participant_dropped(
                            "sender process is not a coordinator or participant",
                        ),
                    );
                }
                let answered = match context.last_commit_epoch {
                    Some(last_commit) => if epoch == last_commit {
                        // The asked-about epoch is the recorded last commit.
                        Some(
                            super::coordinator_algorithm::singleton_vec(
                                ParticipantAction::SendMessage(
                                    process,
                                    TwoPhaseCommitMessage::Commit(epoch),
                                ),
                            ),
                        )
                    } else if epoch < context.epoch && epoch > last_commit {
                        // The epoch passed us by after the last commit, so
                        // its decision can only have been abort.
                        Some(
                            super::coordinator_algorithm::singleton_vec(
                                ParticipantAction::SendMessage(
                                    process,
                                    TwoPhaseCommitMessage::Abort(epoch),
                                ),
                            ),
                        )
                    } else {
                        None
                    },
                    None => if epoch < context.epoch {
                        Some(
                            super::coordinator_algorithm::singleton_vec(
                                ParticipantAction::SendMessage(
                                    process,
                                    TwoPhaseCommitMessage::Abort(epoch),
                                ),
                            ),
                        )
                    } else {
                        None
                    },
                };
                match answered {
                    Some(actions) => Ok(actions),
                    // Before the last commit epoch no peer can still be
                    // uncertain, and from the current epoch on nothing is
                    // decided yet: no answer is possible.
                    None => Ok(participant_dropped("decision unknown")),
                }
            },
            // The embedder answers our request for a vote.
            ParticipantEvent::Vote(vote) => {
                if !matches!(context.role_context.state, ParticipantState::WaitingForVote) {
                    return Err(
                        AlgorithmError::InvalidState(
                            InvalidStateError::with_message(
                                "Vote event when not in WaitingForVote state".to_owned(),
                            ),
                        ),
                    );
                }
                let mut context = context;
                let mut actions: Vec<ParticipantAction<P, V, TS::Time>> = Vec::new();
                let epoch = context.epoch;
                let coordinator = context.coordinator.clone_process();
                if vote {
                    // Vote yes: enter the uncertainty window and arm the
                    // decision timeout before the vote can leave.
                    let now = self.time_source.now();
                    let alarm_at = now.plus_seconds(DECISION_TIMEOUT_SECONDS);
                    context.set_state(
                        ParticipantState::Voted { vote, decision_timeout_start: now },
                    );
                    actions.push(ParticipantAction::Update { context, alarm: Some(alarm_at) });
                    actions.push(
                        ParticipantAction::SendMessage(
                            coordinator,
                            TwoPhaseCommitMessage::VoteResponse(epoch, vote),
                        ),
                    );
                    let r = Ok(actions);
                    proof {
                        assert(participant_yes_vote_actions(ctx0, now, actions@));
                        assert(r matches Ok(w) && w == actions);
                        assert(participant_vote_result(ctx0, vote, r));
                    }
                    r
                } else {
                    // Vote no: the epoch aborts locally; the coordinator
                    // learns it from the vote itself.
                    context.set_state(ParticipantState::Abort);
                    actions.push(ParticipantAction::Update { context, alarm: None });
                    actions.push(
                        ParticipantAction::SendMessage(
                            coordinator,
                            TwoPhaseCommitMessage::VoteResponse(epoch, vote),
                        ),
                    );
                    Ok(actions)
                }
            },
        }
    }
}

/// Returns a one-element action list holding a message-dropped notification
/// with the given reason.
fn participant_dropped<P: Process, V: Value, T: Time>(reason: &str) -> (r: Vec<
    ParticipantAction<P, V, T>,
>)
    ensures
        participant_dropped_only(r@, reason@),
{
    super::coordinator_algorithm::singleton_vec(
        ParticipantAction::Notify(ParticipantActionNotification::MessageDropped(reason.to_owned())),
    )
}

} // verus!
