//! End-to-end scenarios for the coordinator engine, driven by a simulated
//! clock.

use augrim::two_phase_commit::CoordinatorAction;
use augrim::two_phase_commit::CoordinatorActionNotification;
use augrim::two_phase_commit::CoordinatorAlgorithm;
use augrim::two_phase_commit::CoordinatorContext;
use augrim::two_phase_commit::CoordinatorEvent;
use augrim::two_phase_commit::CoordinatorMessage;
use augrim::two_phase_commit::CoordinatorState;
use augrim::two_phase_commit::Participant;
use augrim::two_phase_commit::TwoPhaseCommitContext;
use augrim::two_phase_commit::TwoPhaseCommitMessage;
use augrim::Algorithm;
use augrim::AlgorithmError;
use augrim::FixedTimeSource;
use augrim::TimePoint;

type Ctx = TwoPhaseCommitContext<String, TimePoint, CoordinatorContext<String, TimePoint>>;
type Action = CoordinatorAction<String, u64, TimePoint>;

fn tp(millis: u64) -> TimePoint {
    TimePoint::from_millis(millis)
}

fn engine(now_millis: u64) -> CoordinatorAlgorithm<String, u64, FixedTimeSource> {
    CoordinatorAlgorithm::new(FixedTimeSource::at(tp(now_millis)))
}

fn record(name: &str, vote: Option<bool>, decision_ack: bool) -> Participant<String> {
    Participant {
        process: name.to_string(),
        vote,
        decision_ack,
    }
}

fn context(
    epoch: u64,
    last_commit_epoch: Option<u64>,
    participants: Vec<Participant<String>>,
    state: CoordinatorState<TimePoint>,
) -> Ctx {
    TwoPhaseCommitContext {
        alarm: None,
        coordinator: "c".to_string(),
        epoch,
        last_commit_epoch,
        role_context: CoordinatorContext {
            participants,
            state,
        },
        this_process: "c".to_string(),
    }
}

/// The happy path: start, unanimous yes votes, the coordinator's own yes,
/// both acknowledgements, and the advance into epoch 1 with the commit
/// recorded.
#[test]
fn happy_path_commit() {
    // Start at epoch 0, idle.
    let ctx0 = context(
        0,
        None,
        vec![record("p1", None, false), record("p2", None, false)],
        CoordinatorState::WaitingForStart,
    );
    let actions = engine(0)
        .event(CoordinatorEvent::Start(42u64), ctx0)
        .unwrap();
    let expected: Vec<Action> = vec![
        CoordinatorAction::Update {
            context: context(
                0,
                None,
                vec![record("p1", None, false), record("p2", None, false)],
                CoordinatorState::Voting {
                    vote_timeout_start: tp(0),
                },
            ),
            alarm: Some(tp(30_000)),
        },
        CoordinatorAction::SendMessage(
            "p1".to_string(),
            TwoPhaseCommitMessage::VoteRequest(0, 42),
        ),
        CoordinatorAction::SendMessage(
            "p2".to_string(),
            TwoPhaseCommitMessage::VoteRequest(0, 42),
        ),
    ];
    assert_eq!(actions, expected);

    // The first yes vote is recorded and nothing else happens.
    let voting = |p1: Option<bool>, p2: Option<bool>| {
        context(
            0,
            None,
            vec![record("p1", p1, false), record("p2", p2, false)],
            CoordinatorState::Voting {
                vote_timeout_start: tp(0),
            },
        )
    };
    let actions = engine(1_000)
        .event(
            CoordinatorEvent::Deliver(
                "p1".to_string(),
                CoordinatorMessage::VoteResponse(0, true),
            ),
            voting(None, None),
        )
        .unwrap();
    let expected: Vec<Action> = vec![CoordinatorAction::Update {
        context: voting(Some(true), None),
        alarm: None,
    }];
    assert_eq!(actions, expected);

    // The second yes vote completes the collection: the coordinator asks
    // its embedder for the deciding vote.
    let actions = engine(2_000)
        .event(
            CoordinatorEvent::Deliver(
                "p2".to_string(),
                CoordinatorMessage::VoteResponse(0, true),
            ),
            voting(Some(true), None),
        )
        .unwrap();
    let all_voted = vec![record("p1", Some(true), false), record("p2", Some(true), false)];
    let expected: Vec<Action> = vec![
        CoordinatorAction::Update {
            context: context(
                0,
                None,
                all_voted.clone(),
                CoordinatorState::Voting {
                    vote_timeout_start: tp(0),
                },
            ),
            alarm: None,
        },
        CoordinatorAction::Update {
            context: context(0, None, all_voted.clone(), CoordinatorState::WaitingForVote),
            alarm: None,
        },
        CoordinatorAction::Notify(CoordinatorActionNotification::RequestForVote()),
    ];
    assert_eq!(actions, expected);

    // The coordinator votes yes: the commit is recorded durably, announced
    // to both participants, and the acknowledgement window opens.
    let actions = engine(3_000)
        .event(
            CoordinatorEvent::Vote(true),
            context(0, None, all_voted.clone(), CoordinatorState::WaitingForVote),
        )
        .unwrap();
    let expected: Vec<Action> = vec![
        CoordinatorAction::Update {
            context: context(0, Some(0), all_voted.clone(), CoordinatorState::Commit),
            alarm: None,
        },
        CoordinatorAction::SendMessage("p1".to_string(), TwoPhaseCommitMessage::Commit(0)),
        CoordinatorAction::SendMessage("p2".to_string(), TwoPhaseCommitMessage::Commit(0)),
        CoordinatorAction::Notify(CoordinatorActionNotification::Commit()),
        CoordinatorAction::Update {
            context: context(
                0,
                Some(0),
                all_voted.clone(),
                CoordinatorState::WaitingForDecisionAck {
                    ack_timeout_start: tp(3_000),
                },
            ),
            alarm: Some(tp(8_000)),
        },
    ];
    assert_eq!(actions, expected);

    // The first acknowledgement is recorded and nothing else happens.
    let acking = |p1: bool, p2: bool| {
        context(
            0,
            Some(0),
            vec![
                record("p1", Some(true), p1),
                record("p2", Some(true), p2),
            ],
            CoordinatorState::WaitingForDecisionAck {
                ack_timeout_start: tp(3_000),
            },
        )
    };
    let actions = engine(4_000)
        .event(
            CoordinatorEvent::Deliver("p1".to_string(), CoordinatorMessage::DecisionAck(0)),
            acking(false, false),
        )
        .unwrap();
    let expected: Vec<Action> = vec![CoordinatorAction::Update {
        context: acking(true, false),
        alarm: None,
    }];
    assert_eq!(actions, expected);

    // The second acknowledgement advances the epoch: votes and
    // acknowledgements reset, epoch 1, the commit of epoch 0 on record.
    let actions = engine(5_000)
        .event(
            CoordinatorEvent::Deliver("p2".to_string(), CoordinatorMessage::DecisionAck(0)),
            acking(true, false),
        )
        .unwrap();
    let expected: Vec<Action> = vec![
        CoordinatorAction::Update {
            context: acking(true, true),
            alarm: None,
        },
        CoordinatorAction::Update {
            context: context(
                1,
                Some(0),
                vec![record("p1", None, false), record("p2", None, false)],
                CoordinatorState::WaitingForStart,
            ),
            alarm: None,
        },
        CoordinatorAction::Notify(CoordinatorActionNotification::RequestForStart()),
    ];
    assert_eq!(actions, expected);
    match &actions[1] {
        CoordinatorAction::Update { context, .. } => {
            assert_eq!(*context.last_commit_epoch(), Some(0));
        }
        _ => panic!("expected an update"),
    }
}

/// One participant votes no: the abort is recorded and announced only to
/// the yes-voter, and the acknowledgement window opens.
#[test]
fn participant_votes_no_aborts() {
    let voting = context(
        0,
        None,
        vec![record("p1", Some(true), false), record("p2", None, false)],
        CoordinatorState::Voting {
            vote_timeout_start: tp(0),
        },
    );
    let actions = engine(1_000)
        .event(
            CoordinatorEvent::Deliver(
                "p2".to_string(),
                CoordinatorMessage::VoteResponse(0, false),
            ),
            voting,
        )
        .unwrap();
    let both = vec![record("p1", Some(true), false), record("p2", Some(false), false)];
    let expected: Vec<Action> = vec![
        CoordinatorAction::Update {
            context: context(
                0,
                None,
                both.clone(),
                CoordinatorState::Voting {
                    vote_timeout_start: tp(0),
                },
            ),
            alarm: None,
        },
        CoordinatorAction::Update {
            context: context(0, None, both.clone(), CoordinatorState::Abort),
            alarm: None,
        },
        CoordinatorAction::SendMessage("p1".to_string(), TwoPhaseCommitMessage::Abort(0)),
        CoordinatorAction::Notify(CoordinatorActionNotification::Abort()),
        CoordinatorAction::Update {
            context: context(
                0,
                None,
                both,
                CoordinatorState::WaitingForDecisionAck {
                    ack_timeout_start: tp(1_000),
                },
            ),
            alarm: Some(tp(6_000)),
        },
    ];
    assert_eq!(actions, expected);
}

/// A vote timeout aborts the epoch; only the participant that voted yes is
/// told, the unvoted one recovers through the decision-request subprotocol.
#[test]
fn vote_timeout_aborts() {
    let voting = context(
        0,
        None,
        vec![record("p1", Some(true), false), record("p2", None, false)],
        CoordinatorState::Voting {
            vote_timeout_start: tp(0),
        },
    );
    let actions = engine(31_000)
        .event(CoordinatorEvent::Alarm(), voting)
        .unwrap();
    let both = vec![record("p1", Some(true), false), record("p2", None, false)];
    let expected: Vec<Action> = vec![
        CoordinatorAction::Update {
            context: context(0, None, both.clone(), CoordinatorState::Abort),
            alarm: None,
        },
        CoordinatorAction::SendMessage("p1".to_string(), TwoPhaseCommitMessage::Abort(0)),
        CoordinatorAction::Notify(CoordinatorActionNotification::Abort()),
        CoordinatorAction::Update {
            context: context(
                0,
                None,
                both,
                CoordinatorState::WaitingForDecisionAck {
                    ack_timeout_start: tp(31_000),
                },
            ),
            alarm: Some(tp(36_000)),
        },
    ];
    assert_eq!(actions, expected);
}

/// A premature alarm in the voting window is ignored.
#[test]
fn premature_vote_alarm_ignored() {
    let voting = context(
        0,
        None,
        vec![record("p1", None, false)],
        CoordinatorState::Voting {
            vote_timeout_start: tp(0),
        },
    );
    let actions = engine(10_000)
        .event(CoordinatorEvent::Alarm(), voting)
        .unwrap();
    assert!(actions.is_empty());
}

/// A stale vote response is dropped with the exact reason.
#[test]
fn stale_vote_response_dropped() {
    let voting = context(
        3,
        None,
        vec![record("p1", None, false), record("p2", None, false)],
        CoordinatorState::Voting {
            vote_timeout_start: tp(0),
        },
    );
    let actions = engine(1_000)
        .event(
            CoordinatorEvent::Deliver(
                "p1".to_string(),
                CoordinatorMessage::VoteResponse(1, true),
            ),
            voting,
        )
        .unwrap();
    let expected: Vec<Action> = vec![CoordinatorAction::Notify(
        CoordinatorActionNotification::MessageDropped(
            "epoch is not the current epoch".to_string(),
        ),
    )];
    assert_eq!(actions, expected);
}

/// A vote response from a process that is not a participant is dropped.
#[test]
fn vote_response_from_stranger_dropped() {
    let voting = context(
        0,
        None,
        vec![record("p1", None, false)],
        CoordinatorState::Voting {
            vote_timeout_start: tp(0),
        },
    );
    let actions = engine(1_000)
        .event(
            CoordinatorEvent::Deliver(
                "q".to_string(),
                CoordinatorMessage::VoteResponse(0, true),
            ),
            voting,
        )
        .unwrap();
    let expected: Vec<Action> = vec![CoordinatorAction::Notify(
        CoordinatorActionNotification::MessageDropped(
            "sender process is not a participant".to_string(),
        ),
    )];
    assert_eq!(actions, expected);
}

/// A repeated vote from the same participant is dropped.
#[test]
fn duplicate_vote_dropped() {
    let voting = context(
        0,
        None,
        vec![record("p1", Some(true), false), record("p2", None, false)],
        CoordinatorState::Voting {
            vote_timeout_start: tp(0),
        },
    );
    let actions = engine(1_000)
        .event(
            CoordinatorEvent::Deliver(
                "p1".to_string(),
                CoordinatorMessage::VoteResponse(0, true),
            ),
            voting,
        )
        .unwrap();
    let expected: Vec<Action> = vec![CoordinatorAction::Notify(
        CoordinatorActionNotification::MessageDropped("participant has already voted".to_string()),
    )];
    assert_eq!(actions, expected);
}

/// The decision-request lookup over the engine's record: the recorded
/// commit, the abort that can be deduced, and the two unanswerable sides.
#[test]
fn decision_request_lookup() {
    let ctx = || {
        context(
            5,
            Some(3),
            vec![record("p1", None, false)],
            CoordinatorState::WaitingForStart,
        )
    };
    let ask = |epoch: u64| {
        engine(0)
            .event(
                CoordinatorEvent::Deliver(
                    "p1".to_string(),
                    CoordinatorMessage::DecisionRequest(epoch),
                ),
                ctx(),
            )
            .unwrap()
    };

    let expected: Vec<Action> = vec![CoordinatorAction::SendMessage(
        "p1".to_string(),
        TwoPhaseCommitMessage::Commit(3),
    )];
    assert_eq!(ask(3), expected);

    let expected: Vec<Action> = vec![CoordinatorAction::SendMessage(
        "p1".to_string(),
        TwoPhaseCommitMessage::Abort(4),
    )];
    assert_eq!(ask(4), expected);

    let unknown: Vec<Action> = vec![CoordinatorAction::Notify(
        CoordinatorActionNotification::MessageDropped("decision unknown".to_string()),
    )];
    assert_eq!(ask(2), unknown);
    assert_eq!(ask(6), unknown);
}

/// Replaying the same decision request yields the same answer, and neither
/// reply updates the context.
#[test]
fn decision_request_idempotent() {
    let ctx = || {
        context(
            5,
            Some(3),
            vec![record("p1", None, false)],
            CoordinatorState::WaitingForStart,
        )
    };
    let ask = || {
        engine(0)
            .event(
                CoordinatorEvent::Deliver(
                    "p1".to_string(),
                    CoordinatorMessage::DecisionRequest(3),
                ),
                ctx(),
            )
            .unwrap()
    };
    let first = ask();
    let second = ask();
    assert_eq!(first, second);
    assert!(!matches!(first[0], CoordinatorAction::Update { .. }));
}

/// A commit decided in an epoch is answered consistently even after the
/// engine has advanced past that epoch.
#[test]
fn committed_epoch_answered_after_advance() {
    // Decide commit in epoch 0.
    let all_voted = vec![record("p1", Some(true), false)];
    let mut actions = engine(0)
        .event(
            CoordinatorEvent::Vote(true),
            context(0, None, all_voted, CoordinatorState::WaitingForVote),
        )
        .unwrap();
    // The last update opens the acknowledgement window.
    let after_commit = match actions.pop() {
        Some(CoordinatorAction::Update { context, .. }) => context,
        _ => panic!("expected an update"),
    };
    // The acknowledgement advances into epoch 1.
    let mut actions = engine(1_000)
        .event(
            CoordinatorEvent::Deliver("p1".to_string(), CoordinatorMessage::DecisionAck(0)),
            after_commit,
        )
        .unwrap();
    assert_eq!(actions.len(), 3);
    actions.pop();
    let advanced = match actions.pop() {
        Some(CoordinatorAction::Update { context, .. }) => context,
        _ => panic!("expected an update"),
    };
    assert_eq!(*advanced.epoch(), 1);
    assert_eq!(*advanced.last_commit_epoch(), Some(0));
    // A decision request about epoch 0 is still answered with commit.
    let answer = engine(2_000)
        .event(
            CoordinatorEvent::Deliver(
                "p1".to_string(),
                CoordinatorMessage::DecisionRequest(0),
            ),
            advanced,
        )
        .unwrap();
    let expected: Vec<Action> = vec![CoordinatorAction::SendMessage(
        "p1".to_string(),
        TwoPhaseCommitMessage::Commit(0),
    )];
    assert_eq!(answer, expected);
}

/// A vote event outside the vote-awaiting state is embedder misuse.
#[test]
fn vote_event_outside_window_is_invalid_state() {
    let idle = context(
        0,
        None,
        vec![record("p1", None, false)],
        CoordinatorState::WaitingForStart,
    );
    let result = engine(0).event(CoordinatorEvent::Vote(true), idle);
    match result {
        Err(AlgorithmError::InvalidState(e)) => {
            assert_eq!(
                e.get_message().as_str(),
                "Vote event when not in WaitingForVote state"
            );
        }
        _ => panic!("expected an invalid-state error"),
    }
}

/// An acknowledgement for another epoch is dropped without an update.
#[test]
fn decision_ack_wrong_epoch_dropped() {
    let acking = context(
        2,
        Some(1),
        vec![record("p1", Some(true), false)],
        CoordinatorState::WaitingForDecisionAck {
            ack_timeout_start: tp(0),
        },
    );
    let actions = engine(1_000)
        .event(
            CoordinatorEvent::Deliver("p1".to_string(), CoordinatorMessage::DecisionAck(1)),
            acking,
        )
        .unwrap();
    let expected: Vec<Action> = vec![CoordinatorAction::Notify(
        CoordinatorActionNotification::MessageDropped(
            "epoch is not the current epoch".to_string(),
        ),
    )];
    assert_eq!(actions, expected);
}

/// An expired acknowledgement window advances the epoch without waiting for
/// the stragglers.
#[test]
fn ack_timeout_advances_epoch() {
    let acking = context(
        0,
        Some(0),
        vec![record("p1", Some(true), true), record("p2", Some(true), false)],
        CoordinatorState::WaitingForDecisionAck {
            ack_timeout_start: tp(0),
        },
    );
    let actions = engine(6_000)
        .event(CoordinatorEvent::Alarm(), acking)
        .unwrap();
    let expected: Vec<Action> = vec![
        CoordinatorAction::Update {
            context: context(
                1,
                Some(0),
                vec![record("p1", None, false), record("p2", None, false)],
                CoordinatorState::WaitingForStart,
            ),
            alarm: None,
        },
        CoordinatorAction::Notify(CoordinatorActionNotification::RequestForStart()),
    ];
    assert_eq!(actions, expected);
}

/// A seeded coordinator context starts idle at epoch 0 with fresh records,
/// and accepts a start event right away.
#[test]
fn seeded_context_starts_idle() {
    let seeded: Ctx = TwoPhaseCommitContext::new(
        "c".to_string(),
        vec!["p1".to_string(), "p2".to_string()],
    );
    assert_eq!(
        seeded,
        context(
            0,
            None,
            vec![record("p1", None, false), record("p2", None, false)],
            CoordinatorState::WaitingForStart,
        )
    );

    let actions = engine(0)
        .event(CoordinatorEvent::Start(7u64), seeded)
        .unwrap();
    assert_eq!(actions.len(), 3);
    assert_eq!(
        actions[1],
        CoordinatorAction::SendMessage("p1".to_string(), TwoPhaseCommitMessage::VoteRequest(0, 7))
    );
}

/// An alarm while idle repeats the request for a start value.
#[test]
fn alarm_while_idle_repeats_request_for_start() {
    let idle = context(
        0,
        None,
        vec![record("p1", None, false)],
        CoordinatorState::WaitingForStart,
    );
    let actions = engine(0).event(CoordinatorEvent::Alarm(), idle).unwrap();
    assert_eq!(actions.len(), 2);
    assert_eq!(
        actions[0],
        CoordinatorAction::Notify(CoordinatorActionNotification::RequestForStart())
    );
    match &actions[1] {
        CoordinatorAction::Update { context, alarm } => {
            assert_eq!(*context.state(), CoordinatorState::WaitingForStart);
            assert_eq!(*alarm, None);
        }
        _ => panic!("expected an update"),
    }
}
