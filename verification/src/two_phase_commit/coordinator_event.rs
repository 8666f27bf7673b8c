//! The events a coordinator can process.

use vstd::prelude::*;

use crate::algorithm::Value;
use crate::error::InvalidStateError;
use crate::process::Process;

use super::coordinator_message::CoordinatorMessage;
use super::unified_event::TwoPhaseCommitEvent;

verus! {

/// An input into the coordinator algorithm.
#[derive(Debug, PartialEq, Eq)]
pub enum CoordinatorEvent<P, V> {
    /// A previously requested alarm has gone off.
    Alarm(),
    /// A peer delivered a message.
    Deliver(P, CoordinatorMessage),
    /// The embedder starts a new epoch, proposing the given value.
    Start(V),
    /// The embedder answers a request for a vote (`true` for yes).
    Vote(bool),
}

impl<P: Process, V: Value> TwoPhaseCommitEvent<P, V> {
    /// The coordinator event this unified event projects to, or `None` when
    /// only a participant can process it.
    pub open spec fn spec_coordinator_event(self) -> Option<CoordinatorEvent<P, V>> {
        match self {
            TwoPhaseCommitEvent::Alarm() => Some(CoordinatorEvent::Alarm()),
            TwoPhaseCommitEvent::Deliver(p, m) => match m.spec_coordinator_message() {
                Some(cm) => Some(CoordinatorEvent::Deliver(p, cm)),
                None => None,
            },
            TwoPhaseCommitEvent::Start(value) => Some(CoordinatorEvent::Start(value)),
            TwoPhaseCommitEvent::Vote(vote) => Some(CoordinatorEvent::Vote(vote)),
        }
    }

    /// Projects the unified event onto the coordinator role; events only a
    /// participant can process are rejected.
    pub fn try_into_coordinator_event(self) -> (r: Result<CoordinatorEvent<P, V>, InvalidStateError>)
        ensures
            (match self.spec_coordinator_event() {
                Some(e) => r matches Ok(c) && c == e,
                None => r is Err,
            }),
    {
        match self {
            TwoPhaseCommitEvent::Alarm() => Ok(CoordinatorEvent::Alarm()),
            TwoPhaseCommitEvent::Deliver(p, m) => match m.try_into_coordinator_message() {
                Ok(cm) => Ok(CoordinatorEvent::Deliver(p, cm)),
                Err(e) => Err(e),
            },
            TwoPhaseCommitEvent::Start(value) => Ok(CoordinatorEvent::Start(value)),
            TwoPhaseCommitEvent::Vote(vote) => Ok(CoordinatorEvent::Vote(vote)),
        }
    }
}

} // verus!
