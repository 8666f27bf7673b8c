//! Tests of the unified engine's role dispatch.

use augrim::two_phase_commit::Participant;
use augrim::two_phase_commit::TwoPhaseCommitAction;
use augrim::two_phase_commit::TwoPhaseCommitActionNotification;
use augrim::two_phase_commit::TwoPhaseCommitAlgorithm;
use augrim::two_phase_commit::TwoPhaseCommitContext;
use augrim::two_phase_commit::TwoPhaseCommitContextBuilder;
use augrim::two_phase_commit::TwoPhaseCommitEvent;
use augrim::two_phase_commit::TwoPhaseCommitMessage;
use augrim::two_phase_commit::TwoPhaseCommitState;
use augrim::Algorithm;
use augrim::AlgorithmError;
use augrim::FixedTimeSource;
use augrim::TimePoint;

type Ctx = TwoPhaseCommitContext<String, TimePoint>;
type Action = TwoPhaseCommitAction<String, u64, TimePoint>;

fn tp(millis: u64) -> TimePoint {
    TimePoint::from_millis(millis)
}

fn engine(now_millis: u64) -> TwoPhaseCommitAlgorithm<String, u64, FixedTimeSource> {
    TwoPhaseCommitAlgorithm::new(FixedTimeSource::at(tp(now_millis)))
}

fn coordinator_context() -> Ctx {
    TwoPhaseCommitContextBuilder::new()
        .with_coordinator("c".to_string())
        .with_epoch(0)
        .with_state(TwoPhaseCommitState::WaitingForStart)
        .with_this_process("c".to_string())
        .with_participants(vec![
            Participant::new("p1".to_string()),
            Participant::new("p2".to_string()),
        ])
        .build()
        .unwrap()
}

fn participant_context() -> Ctx {
    TwoPhaseCommitContextBuilder::new()
        .with_coordinator("c".to_string())
        .with_epoch(0)
        .with_state(TwoPhaseCommitState::WaitingForVoteRequest)
        .with_this_process("p1".to_string())
        .with_participant_processes(vec!["p1".to_string(), "p2".to_string()])
        .build()
        .unwrap()
}

/// A start event on a coordinating process runs the coordinator engine and
/// lifts its actions to the unified space.
#[test]
fn unified_dispatches_to_coordinator() {
    let actions = engine(0)
        .event(TwoPhaseCommitEvent::Start(42u64), coordinator_context())
        .unwrap();
    assert_eq!(actions.len(), 3);
    match &actions[0] {
        TwoPhaseCommitAction::Update { context, alarm } => {
            assert_eq!(
                context.state(),
                TwoPhaseCommitState::Voting {
                    vote_timeout_start: tp(0)
                }
            );
            assert_eq!(*alarm, Some(tp(30_000)));
        }
        _ => panic!("expected an update"),
    }
    assert_eq!(
        actions[1],
        TwoPhaseCommitAction::SendMessage(
            "p1".to_string(),
            TwoPhaseCommitMessage::VoteRequest(0, 42)
        )
    );
    assert_eq!(
        actions[2],
        TwoPhaseCommitAction::SendMessage(
            "p2".to_string(),
            TwoPhaseCommitMessage::VoteRequest(0, 42)
        )
    );
}

/// A vote request on a plain participant runs the participant engine and
/// lifts its actions to the unified space.
#[test]
fn unified_dispatches_to_participant() {
    let actions = engine(0)
        .event(
            TwoPhaseCommitEvent::Deliver(
                "c".to_string(),
                TwoPhaseCommitMessage::VoteRequest(0, 42u64),
            ),
            participant_context(),
        )
        .unwrap();
    assert_eq!(actions.len(), 2);
    match &actions[0] {
        TwoPhaseCommitAction::Update { context, alarm } => {
            assert_eq!(context.state(), TwoPhaseCommitState::WaitingForVote);
            assert_eq!(*alarm, None);
        }
        _ => panic!("expected an update"),
    }
    assert_eq!(
        actions[1],
        TwoPhaseCommitAction::Notify(
            TwoPhaseCommitActionNotification::ParticipantRequestForVote(42)
        )
    );
}

/// The coordinator's request for its own vote surfaces as the
/// coordinator-side notification.
#[test]
fn unified_lifts_coordinator_notification() {
    let voting = TwoPhaseCommitContextBuilder::new()
        .with_coordinator("c".to_string())
        .with_epoch(0)
        .with_state(TwoPhaseCommitState::Voting {
            vote_timeout_start: tp(0),
        })
        .with_this_process("c".to_string())
        .with_participants(vec![Participant::new("p1".to_string())])
        .build()
        .unwrap();
    let actions: Vec<Action> = engine(1_000)
        .event(
            TwoPhaseCommitEvent::Deliver(
                "p1".to_string(),
                TwoPhaseCommitMessage::VoteResponse(0, true),
            ),
            voting,
        )
        .unwrap();
    assert_eq!(actions.len(), 3);
    assert_eq!(
        actions[2],
        TwoPhaseCommitAction::Notify(
            TwoPhaseCommitActionNotification::CoordinatorRequestForVote()
        )
    );
}

/// A start event delivered to a plain participant is embedder misuse.
#[test]
fn start_event_on_participant_is_invalid_state() {
    let result = engine(0).event(TwoPhaseCommitEvent::Start(42u64), participant_context());
    assert!(matches!(result, Err(AlgorithmError::InvalidState(_))));
}

/// A coordinator-only message delivered to a plain participant is embedder
/// misuse.
#[test]
fn coordinator_message_on_participant_is_invalid_state() {
    let result = engine(0).event(
        TwoPhaseCommitEvent::Deliver(
            "c".to_string(),
            TwoPhaseCommitMessage::VoteResponse(0, true),
        ),
        participant_context(),
    );
    assert!(matches!(result, Err(AlgorithmError::InvalidState(_))));
}
