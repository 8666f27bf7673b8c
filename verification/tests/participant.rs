//! End-to-end scenarios for the participant engine, driven by a simulated
//! clock.

use augrim::two_phase_commit::ParticipantAction;
use augrim::two_phase_commit::ParticipantActionNotification;
use augrim::two_phase_commit::ParticipantAlgorithm;
use augrim::two_phase_commit::ParticipantContext;
use augrim::two_phase_commit::ParticipantEvent;
use augrim::two_phase_commit::ParticipantMessage;
use augrim::two_phase_commit::ParticipantState;
use augrim::two_phase_commit::TwoPhaseCommitContext;
use augrim::two_phase_commit::TwoPhaseCommitMessage;
use augrim::Algorithm;
use augrim::AlgorithmError;
use augrim::FixedTimeSource;
use augrim::TimePoint;

type Ctx = TwoPhaseCommitContext<String, TimePoint, ParticipantContext<String, TimePoint>>;
type Action = ParticipantAction<String, u64, TimePoint>;

fn tp(millis: u64) -> TimePoint {
    TimePoint::from_millis(millis)
}

fn engine(now_millis: u64) -> ParticipantAlgorithm<String, u64, FixedTimeSource> {
    ParticipantAlgorithm::new(FixedTimeSource::at(tp(now_millis)))
}

fn context(
    epoch: u64,
    last_commit_epoch: Option<u64>,
    state: ParticipantState<TimePoint>,
) -> Ctx {
    TwoPhaseCommitContext {
        alarm: None,
        coordinator: "c".to_string(),
        epoch,
        last_commit_epoch,
        role_context: ParticipantContext {
            participant_processes: vec!["p1".to_string(), "p2".to_string()],
            state,
        },
        this_process: "p1".to_string(),
    }
}

/// The coordinator's vote request moves the participant into the
/// vote-awaiting state and asks the embedder for its vote on the value.
#[test]
fn vote_request_asks_embedder() {
    let idle = context(0, None, ParticipantState::WaitingForVoteRequest);
    let actions = engine(0)
        .event(
            ParticipantEvent::Deliver(
                "c".to_string(),
                ParticipantMessage::VoteRequest(0, 42u64),
            ),
            idle,
        )
        .unwrap();
    let expected: Vec<Action> = vec![
        ParticipantAction::Update {
            context: context(0, None, ParticipantState::WaitingForVote),
            alarm: None,
        },
        ParticipantAction::Notify(ParticipantActionNotification::RequestForVote(42)),
    ];
    assert_eq!(actions, expected);
}

/// A vote request from anyone but the coordinator is dropped.
#[test]
fn vote_request_from_non_coordinator_dropped() {
    let idle = context(0, None, ParticipantState::WaitingForVoteRequest);
    let actions = engine(0)
        .event(
            ParticipantEvent::Deliver(
                "p2".to_string(),
                ParticipantMessage::VoteRequest(0, 42u64),
            ),
            idle,
        )
        .unwrap();
    let expected: Vec<Action> = vec![ParticipantAction::Notify(
        ParticipantActionNotification::MessageDropped(
            "sender process is not the coordinator".to_string(),
        ),
    )];
    assert_eq!(actions, expected);
}

/// A yes vote enters the uncertainty window, arms the decision timeout, and
/// sends the vote to the coordinator.
#[test]
fn yes_vote_enters_uncertainty_window() {
    let awaiting = context(0, None, ParticipantState::WaitingForVote);
    let actions = engine(1_000)
        .event(ParticipantEvent::Vote(true), awaiting)
        .unwrap();
    let expected: Vec<Action> = vec![
        ParticipantAction::Update {
            context: context(
                0,
                None,
                ParticipantState::Voted {
                    vote: true,
                    decision_timeout_start: tp(1_000),
                },
            ),
            alarm: Some(tp(31_000)),
        },
        ParticipantAction::SendMessage(
            "c".to_string(),
            TwoPhaseCommitMessage::VoteResponse(0, true),
        ),
    ];
    assert_eq!(actions, expected);
}

/// A no vote decides abort locally and still tells the coordinator.
#[test]
fn no_vote_aborts_locally() {
    let awaiting = context(0, None, ParticipantState::WaitingForVote);
    let actions = engine(1_000)
        .event(ParticipantEvent::Vote(false), awaiting)
        .unwrap();
    let expected: Vec<Action> = vec![
        ParticipantAction::Update {
            context: context(0, None, ParticipantState::Abort),
            alarm: None,
        },
        ParticipantAction::SendMessage(
            "c".to_string(),
            TwoPhaseCommitMessage::VoteResponse(0, false),
        ),
    ];
    assert_eq!(actions, expected);
}

/// A decision timeout makes the participant ask every other participant and
/// the coordinator for the decision, and re-arms the timeout.
#[test]
fn decision_timeout_starts_termination_protocol() {
    let voted = context(
        0,
        None,
        ParticipantState::Voted {
            vote: true,
            decision_timeout_start: tp(0),
        },
    );
    let actions = engine(31_000)
        .event(ParticipantEvent::Alarm(), voted)
        .unwrap();
    let expected: Vec<Action> = vec![
        ParticipantAction::SendMessage(
            "p2".to_string(),
            TwoPhaseCommitMessage::DecisionRequest(0),
        ),
        ParticipantAction::SendMessage(
            "c".to_string(),
            TwoPhaseCommitMessage::DecisionRequest(0),
        ),
        ParticipantAction::Update {
            context: context(
                0,
                None,
                ParticipantState::Voted {
                    vote: true,
                    decision_timeout_start: tp(31_000),
                },
            ),
            alarm: Some(tp(61_000)),
        },
    ];
    assert_eq!(actions, expected);
}

/// A premature alarm in the uncertainty window is ignored.
#[test]
fn premature_decision_alarm_ignored() {
    let voted = context(
        0,
        None,
        ParticipantState::Voted {
            vote: true,
            decision_timeout_start: tp(0),
        },
    );
    let actions = engine(10_000)
        .event(ParticipantEvent::Alarm(), voted)
        .unwrap();
    assert!(actions.is_empty());
}

/// A commit announcement inside the uncertainty window is recorded.
#[test]
fn commit_decision_recorded() {
    let voted = context(
        0,
        None,
        ParticipantState::Voted {
            vote: true,
            decision_timeout_start: tp(0),
        },
    );
    let actions = engine(1_000)
        .event(
            ParticipantEvent::Deliver("c".to_string(), ParticipantMessage::Commit(0)),
            voted,
        )
        .unwrap();
    let expected: Vec<Action> = vec![ParticipantAction::Update {
        context: context(0, None, ParticipantState::Commit),
        alarm: None,
    }];
    assert_eq!(actions, expected);
}

/// An abort announcement inside the uncertainty window is recorded.
#[test]
fn abort_decision_recorded() {
    let voted = context(
        0,
        None,
        ParticipantState::Voted {
            vote: true,
            decision_timeout_start: tp(0),
        },
    );
    let actions = engine(1_000)
        .event(
            ParticipantEvent::Deliver("c".to_string(), ParticipantMessage::Abort(0)),
            voted,
        )
        .unwrap();
    let expected: Vec<Action> = vec![ParticipantAction::Update {
        context: context(0, None, ParticipantState::Abort),
        alarm: None,
    }];
    assert_eq!(actions, expected);
}

/// A commit announcement for another epoch is dropped without an update.
#[test]
fn commit_wrong_epoch_dropped() {
    let voted = context(
        2,
        None,
        ParticipantState::Voted {
            vote: true,
            decision_timeout_start: tp(0),
        },
    );
    let actions = engine(1_000)
        .event(
            ParticipantEvent::Deliver("c".to_string(), ParticipantMessage::Commit(1)),
            voted,
        )
        .unwrap();
    let expected: Vec<Action> = vec![ParticipantAction::Notify(
        ParticipantActionNotification::MessageDropped(
            "epoch is not the current epoch".to_string(),
        ),
    )];
    assert_eq!(actions, expected);
}

/// An abort announcement outside the uncertainty window is dropped.
#[test]
fn abort_outside_window_dropped() {
    let idle = context(0, None, ParticipantState::WaitingForVoteRequest);
    let actions = engine(1_000)
        .event(
            ParticipantEvent::Deliver("c".to_string(), ParticipantMessage::Abort(0)),
            idle,
        )
        .unwrap();
    let expected: Vec<Action> = vec![ParticipantAction::Notify(
        ParticipantActionNotification::MessageDropped(
            "abort received outside decision window".to_string(),
        ),
    )];
    assert_eq!(actions, expected);
}

/// The decision-request lookup over the participant's record, with sender
/// validation: a peer or the coordinator is answered where possible, a
/// stranger is dropped.
#[test]
fn participant_decision_request_lookup() {
    let ctx = || context(5, Some(3), ParticipantState::WaitingForVoteRequest);

    let ask = |sender: &str, epoch: u64| {
        engine(0)
            .event(
                ParticipantEvent::Deliver(
                    sender.to_string(),
                    ParticipantMessage::DecisionRequest(epoch),
                ),
                ctx(),
            )
            .unwrap()
    };

    let expected: Vec<Action> = vec![ParticipantAction::SendMessage(
        "p2".to_string(),
        TwoPhaseCommitMessage::Commit(3),
    )];
    assert_eq!(ask("p2", 3), expected);

    let expected: Vec<Action> = vec![ParticipantAction::SendMessage(
        "c".to_string(),
        TwoPhaseCommitMessage::Abort(4),
    )];
    assert_eq!(ask("c", 4), expected);

    let unknown: Vec<Action> = vec![ParticipantAction::Notify(
        ParticipantActionNotification::MessageDropped("decision unknown".to_string()),
    )];
    assert_eq!(ask("p2", 2), unknown);
    assert_eq!(ask("p2", 6), unknown);

    let stranger: Vec<Action> = vec![ParticipantAction::Notify(
        ParticipantActionNotification::MessageDropped(
            "sender process is not a coordinator or participant".to_string(),
        ),
    )];
    assert_eq!(ask("q", 3), stranger);
}

/// An alarm in a state without a pending timer is embedder misuse.
#[test]
fn alarm_outside_uncertainty_window_is_invalid_state() {
    let idle = context(0, None, ParticipantState::WaitingForVoteRequest);
    let result = engine(0).event(ParticipantEvent::Alarm(), idle);
    match result {
        Err(AlgorithmError::InvalidState(e)) => {
            assert_eq!(e.get_message().as_str(), "Alarm unexpected in WaitForVoteRequest state");
        }
        _ => panic!("expected an invalid-state error"),
    }

    let aborted = context(0, None, ParticipantState::Abort);
    let result = engine(0).event(ParticipantEvent::Alarm(), aborted);
    match result {
        Err(AlgorithmError::InvalidState(e)) => {
            assert_eq!(e.get_message().as_str(), "Alarm unexpected in Abort state");
        }
        _ => panic!("expected an invalid-state error"),
    }
}

/// A vote event without a pending vote request is embedder misuse.
#[test]
fn participant_vote_outside_window_is_invalid_state() {
    let idle = context(0, None, ParticipantState::WaitingForVoteRequest);
    let result = engine(0).event(ParticipantEvent::Vote(true), idle);
    match result {
        Err(AlgorithmError::InvalidState(e)) => {
            assert_eq!(e.get_message().as_str(), "Vote event when not in WaitingForVote state");
        }
        _ => panic!("expected an invalid-state error"),
    }
}
