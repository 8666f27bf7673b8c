//! Tests of the unified context builder and the role projections.

use augrim::two_phase_commit::CoordinatorContext;
use augrim::two_phase_commit::CoordinatorState;
use augrim::two_phase_commit::Participant;
use augrim::two_phase_commit::TwoPhaseCommitContext;
use augrim::two_phase_commit::TwoPhaseCommitContextBuilder;
use augrim::two_phase_commit::TwoPhaseCommitState;
use augrim::TimePoint;

/// A fully populated coordinator-side builder produces a context that
/// carries exactly what was set, projects onto the coordinator role, and
/// lifts back unchanged.
#[test]
fn build_coordinator_context() {
    let now = TimePoint::from_millis(1_000);

    let unified_context = TwoPhaseCommitContextBuilder::<String, TimePoint>::new()
        .with_alarm(now)
        .with_coordinator("me".into())
        .with_epoch(2)
        .with_last_commit_epoch(1)
        .with_state(TwoPhaseCommitState::WaitingForStart)
        .with_this_process("me".into())
        .with_participants(vec![
            Participant::new("me".into()),
            Participant::new("p1".into()),
            Participant::new("p2".into()),
        ])
        .build()
        .unwrap();

    let coordinator_context: TwoPhaseCommitContext<_, _, CoordinatorContext<_, _>> =
        unified_context.try_into_coordinator_context().unwrap();

    assert_eq!(coordinator_context.alarm().unwrap(), now);
    assert_eq!(*coordinator_context.coordinator(), "me".to_string());
    assert_eq!(*coordinator_context.epoch(), 2);
    assert_eq!(coordinator_context.last_commit_epoch().unwrap(), 1);
    assert_eq!(
        *coordinator_context.state(),
        CoordinatorState::WaitingForStart
    );
    assert_eq!(coordinator_context.participants().len(), 3);

    let reunified_context: TwoPhaseCommitContext<_, _> =
        coordinator_context.into_unified_context();

    assert_eq!(reunified_context.alarm().unwrap(), now);
    assert_eq!(*reunified_context.coordinator(), "me".to_string());
    assert_eq!(*reunified_context.epoch(), 2);
    assert_eq!(reunified_context.last_commit_epoch().unwrap(), 1);
    assert_eq!(
        reunified_context.state(),
        TwoPhaseCommitState::WaitingForStart
    );
    assert_eq!(reunified_context.participants().unwrap().len(), 3);
}

/// A builder without a role (neither participants nor a peer list) is
/// rejected, as is one with both.
#[test]
fn build_requires_exactly_one_role() {
    let missing_role = TwoPhaseCommitContextBuilder::<String, TimePoint>::new()
        .with_coordinator("c".into())
        .with_epoch(0)
        .with_state(TwoPhaseCommitState::WaitingForStart)
        .with_this_process("c".into())
        .build();
    assert!(missing_role.is_err());

    let both_roles = TwoPhaseCommitContextBuilder::<String, TimePoint>::new()
        .with_coordinator("c".into())
        .with_epoch(0)
        .with_state(TwoPhaseCommitState::WaitingForStart)
        .with_this_process("c".into())
        .with_participants(vec![Participant::new("p1".into())])
        .with_participant_processes(vec!["p1".into()])
        .build();
    assert!(both_roles.is_err());
}

/// A state that belongs to the other role is rejected.
#[test]
fn build_rejects_state_of_wrong_role() {
    let coordinator_with_participant_state = TwoPhaseCommitContextBuilder::<String, TimePoint>::new()
        .with_coordinator("c".into())
        .with_epoch(0)
        .with_state(TwoPhaseCommitState::WaitingForVoteRequest)
        .with_this_process("c".into())
        .with_participants(vec![Participant::new("p1".into())])
        .build();
    assert!(coordinator_with_participant_state.is_err());

    let participant_with_coordinator_state = TwoPhaseCommitContextBuilder::<String, TimePoint>::new()
        .with_coordinator("c".into())
        .with_epoch(0)
        .with_state(TwoPhaseCommitState::WaitingForStart)
        .with_this_process("p1".into())
        .with_participant_processes(vec!["p1".into()])
        .build();
    assert!(participant_with_coordinator_state.is_err());
}

/// A builder missing a required field is rejected.
#[test]
fn build_requires_all_fields() {
    let missing_coordinator = TwoPhaseCommitContextBuilder::<String, TimePoint>::new()
        .with_epoch(0)
        .with_state(TwoPhaseCommitState::WaitingForStart)
        .with_this_process("c".into())
        .with_participants(vec![Participant::new("p1".into())])
        .build();
    assert!(missing_coordinator.is_err());

    let missing_epoch = TwoPhaseCommitContextBuilder::<String, TimePoint>::new()
        .with_coordinator("c".into())
        .with_state(TwoPhaseCommitState::WaitingForStart)
        .with_this_process("c".into())
        .with_participants(vec![Participant::new("p1".into())])
        .build();
    assert!(missing_epoch.is_err());
}
