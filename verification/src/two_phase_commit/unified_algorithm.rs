//! The unified two-phase-commit engine, serving either role.

use vstd::prelude::*;

use crate::algorithm::Algorithm;
use crate::algorithm::Value;
use crate::error::AlgorithmError;
use crate::process::Process;
use crate::time::Time;
use crate::time::TimeSource;

use super::coordinator_action::lifts_coordinator_action;
use super::coordinator_action::CoordinatorAction;
use super::coordinator_algorithm::coordinator_event_ensures;
use super::coordinator_algorithm::CoordinatorAlgorithm;
use super::participant_action::lifts_participant_action;
use super::participant_action::ParticipantAction;
use super::participant_algorithm::participant_event_ensures;
use super::participant_algorithm::ParticipantAlgorithm;
use super::unified_action::TwoPhaseCommitAction;
use super::unified_context::TwoPhaseCommitContext;
use super::unified_context::TwoPhaseCommitContextView;
use super::unified_event::TwoPhaseCommitEvent;
use super::unified_role::TwoPhaseCommitRoleContext;
use super::unified_role::TwoPhaseCommitRoleContextView;

verus! {

/// Whether the unified action list is the elementwise lifting of the
/// coordinator action list.
pub open spec fn lifts_coordinator_actions<P: Process, V: Value, T: Time>(
    ra: Seq<CoordinatorAction<P, V, T>>,
    ua: Seq<TwoPhaseCommitAction<P, V, T>>,
) -> bool {
    &&& ua.len() == ra.len()
    &&& forall|i: int| 0 <= i < ra.len() ==> lifts_coordinator_action(ra[i], #[trigger] ua[i])
}

/// Whether the unified result is the lifting of the coordinator result: the
/// same error, or the lifted action list.
pub open spec fn lifts_coordinator_result<P: Process, V: Value, T: Time>(
    rr: Result<Vec<CoordinatorAction<P, V, T>>, AlgorithmError>,
    r: Result<Vec<TwoPhaseCommitAction<P, V, T>>, AlgorithmError>,
) -> bool {
    match rr {
        Ok(ra) => r matches Ok(ua) && lifts_coordinator_actions(ra@, ua@),
        Err(e) => r matches Err(e2) && e2 == e,
    }
}

/// Whether the unified action list is the elementwise lifting of the
/// participant action list.
pub open spec fn lifts_participant_actions<P: Process, V: Value, T: Time>(
    ra: Seq<ParticipantAction<P, V, T>>,
    ua: Seq<TwoPhaseCommitAction<P, V, T>>,
) -> bool {
    &&& ua.len() == ra.len()
    &&& forall|i: int| 0 <= i < ra.len() ==> lifts_participant_action(ra[i], #[trigger] ua[i])
}

/// Whether the unified result is the lifting of the participant result: the
/// same error, or the lifted action list.
pub open spec fn lifts_participant_result<P: Process, V: Value, T: Time>(
    rr: Result<Vec<ParticipantAction<P, V, T>>, AlgorithmError>,
    r: Result<Vec<TwoPhaseCommitAction<P, V, T>>, AlgorithmError>,
) -> bool {
    match rr {
        Ok(ra) => r matches Ok(ua) && lifts_participant_actions(ra@, ua@),
        Err(e) => r matches Err(e2) && e2 == e,
    }
}

/// What the unified engine guarantees of the result of processing an event:
/// when this process is the coordinator, the event and context are projected
/// onto the coordinator role and the coordinator algorithm's guarantee holds
/// of a result this one lifts; otherwise the same through the participant
/// role. An event or role context that does not project is embedder misuse.
pub open spec fn unified_event_ensures<P: Process, V: Value, T: Time>(
    event: TwoPhaseCommitEvent<P, V>,
    ctx: TwoPhaseCommitContextView<P, T, TwoPhaseCommitRoleContextView<P, T>>,
    r: Result<Vec<TwoPhaseCommitAction<P, V, T>>, AlgorithmError>,
) -> bool {
    if ctx.coordinator@ == ctx.this_process@ {
        match event.spec_coordinator_event() {
            Some(ce) => match ctx.role_context {
                TwoPhaseCommitRoleContextView::Coordinator(cv) => exists|
                    rr: Result<Vec<CoordinatorAction<P, V, T>>, AlgorithmError>,
                |
                    #[trigger] coordinator_event_ensures(ce, ctx.with_role_context(cv), rr)
                        && lifts_coordinator_result(rr, r),
                TwoPhaseCommitRoleContextView::Participant(_) => r matches Err(
                    AlgorithmError::InvalidState(_),
                ),
            },
            None => r matches Err(AlgorithmError::InvalidState(_)),
        }
    } else {
        match event.spec_participant_event() {
            Some(pe) => match ctx.role_context {
                TwoPhaseCommitRoleContextView::Participant(pv) => exists|
                    rr: Result<Vec<ParticipantAction<P, V, T>>, AlgorithmError>,
                |
                    #[trigger] participant_event_ensures(pe, ctx.with_role_context(pv), rr)
                        && lifts_participant_result(rr, r),
                TwoPhaseCommitRoleContextView::Coordinator(_) => r matches Err(
                    AlgorithmError::InvalidState(_),
                ),
            },
            None => r matches Err(AlgorithmError::InvalidState(_)),
        }
    }
}

/// The unified two-phase-commit engine: one engine per role, sharing the
/// clock, with events dispatched by whether this process coordinates.
pub struct TwoPhaseCommitAlgorithm<P, V, TS> {
    /// The engine serving this process when it coordinates.
    pub coordinator: CoordinatorAlgorithm<P, V, TS>,
    /// The engine serving this process when it is a plain participant.
    pub participant: ParticipantAlgorithm<P, V, TS>,
}

impl<P: Process, V: Value, TS: TimeSource + Clone> TwoPhaseCommitAlgorithm<P, V, TS> {
    /// Builds a unified engine whose role-specific engines share the given
    /// time source. The participant engine holds the source itself; the
    /// coordinator engine holds a clone of it, of which nothing is known
    /// for a generic source.
    pub fn new(time_source: TS) -> (r: Self)
        ensures
            r.participant.time_source == time_source,
    {
        Self {
            coordinator: CoordinatorAlgorithm::new(time_source.clone()),
            participant: ParticipantAlgorithm::new(time_source),
        }
    }
}

impl<P: Process, V: Value, TS: TimeSource> Algorithm for TwoPhaseCommitAlgorithm<P, V, TS> {
    type Event = TwoPhaseCommitEvent<P, V>;

    type Action = TwoPhaseCommitAction<P, V, TS::Time>;

    type Context = TwoPhaseCommitContext<P, TS::Time, TwoPhaseCommitRoleContext<P, TS::Time>>;

    /// Processes an event with a given context, dispatching on the
    /// process's role and lifting the role engine's actions back into the
    /// unified action space.
    fn event(
        &self,
        event: TwoPhaseCommitEvent<P, V>,
        context: TwoPhaseCommitContext<P, TS::Time, TwoPhaseCommitRoleContext<P, TS::Time>>,
    ) -> (r: Result<Vec<TwoPhaseCommitAction<P, V, TS::Time>>, AlgorithmError>)
        ensures
            unified_event_ensures(event, context@, r),
    {
        let ghost ctx0 = context@;
        let ghost event0 = event;
        if context.coordinator.eq_process(&context.this_process) {
            let ce = match event.try_into_coordinator_event() {
                Ok(e) => e,
                Err(e) => {
                    return Err(AlgorithmError::InvalidState(e));
                },
            };
            let ghost ce0 = ce;
            let cc = match context.try_into_coordinator_context() {
                Ok(c) => c,
                Err(e) => {
                    return Err(AlgorithmError::InvalidState(e));
                },
            };
            let ghost ccv = cc@;
            let rr = self.coordinator.event(ce, cc);
            let ghost rr0 = rr;
            match rr {
                Ok(mut ra) => {
                    let ghost ra0 = ra@;
                    let mut ua: Vec<TwoPhaseCommitAction<P, V, TS::Time>> = Vec::new();
                    proof {
                        assert(ra@ =~= ra0.skip(0));
                    }
                    while ra.len() > 0
                        invariant
                            ua@.len() + ra@.len() == ra0.len(),
                            ra@ == ra0.skip(ua@.len() as int),
                            forall|j: int|
                                0 <= j < ua@.len() ==> lifts_coordinator_action(
                                    ra0[j],
                                    #[trigger] ua@[j],
                                ),
                        decreases ra@.len(),
                    {
                        let ghost k = ua@.len() as int;
                        let a = ra.remove(0);
                        proof {
                            assert(a == ra0.skip(k)[0]);
                            assert(ra0.skip(k)[0] == ra0[k]);
                        }
                        ua.push(a.into_unified_action());
                        proof {
                            assert(ra@ =~= ra0.skip(k + 1));
                        }
                    }
                    let r = Ok(ua);
                    proof {
                        assert(r matches Ok(w) && w == ua);
                        assert(rr0 matches Ok(w) && w@ == ra0);
                        assert(lifts_coordinator_actions(ra0, ua@));
                        assert(lifts_coordinator_result(rr0, r));
                        assert(coordinator_event_ensures(ce0, ctx0.with_role_context(ccv.role_context), rr0));
                        assert(unified_event_ensures(event0, ctx0, r));
                    }
                    r
                },
                Err(e) => {
                    let r = Err(e);
                    proof {
                        assert(lifts_coordinator_result(rr0, r));
                        assert(unified_event_ensures(event0, ctx0, r));
                    }
                    r
                },
            }
        } else {
            let pe = match event.try_into_participant_event() {
                Ok(e) => e,
                Err(e) => {
                    return Err(AlgorithmError::InvalidState(e));
                },
            };
            let ghost pe0 = pe;
            let pc = match context.try_into_participant_context() {
                Ok(c) => c,
                Err(e) => {
                    return Err(AlgorithmError::InvalidState(e));
                },
            };
            let ghost pcv = pc@;
            let rr = self.participant.event(pe, pc);
            let ghost rr0 = rr;
            match rr {
                Ok(mut ra) => {
                    let ghost ra0 = ra@;
                    let mut ua: Vec<TwoPhaseCommitAction<P, V, TS::Time>> = Vec::new();
                    proof {
                        assert(ra@ =~= ra0.skip(0));
                    }
                    while ra.len() > 0
                        invariant
                            ua@.len() + ra@.len() == ra0.len(),
                            ra@ == ra0.skip(ua@.len() as int),
                            forall|j: int|
                                0 <= j < ua@.len() ==> lifts_participant_action(
                                    ra0[j],
                                    #[trigger] ua@[j],
                                ),
                        decreases ra@.len(),
                    {
                        let ghost k = ua@.len() as int;
                        let a = ra.remove(0);
                        proof {
                            assert(a == ra0.skip(k)[0]);
                            assert(ra0.skip(k)[0] == ra0[k]);
                        }
                        ua.push(a.into_unified_action());
                        proof {
                            assert(ra@ =~= ra0.skip(k + 1));
                        }
                    }
                    let r = Ok(ua);
                    proof {
                        assert(r matches Ok(w) && w == ua);
                        assert(rr0 matches Ok(w) && w@ == ra0);
                        assert(lifts_participant_actions(ra0, ua@));
                        assert(lifts_participant_result(rr0, r));
                        assert(participant_event_ensures(pe0, ctx0.with_role_context(pcv.role_context), rr0));
                        assert(unified_event_ensures(event0, ctx0, r));
                    }
                    r
                },
                Err(e) => {
                    let r = Err(e);
                    proof {
                        assert(lifts_participant_result(rr0, r));
                        assert(unified_event_ensures(event0, ctx0, r));
                    }
                    r
                },
            }
        }
    }
}

} // verus!
