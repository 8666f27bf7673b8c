//! The events a participant can process.

use vstd::prelude::*;

use crate::algorithm::Adapt;
use crate::algorithm::Value;
use crate::error::InternalError;
use crate::error::InvalidStateError;
use crate::process::Process;

use super::participant_message::ParticipantMessage;
use super::unified_event::TwoPhaseCommitEvent;

verus! {

/// An input into the participant algorithm.
#[derive(Debug, PartialEq, Eq)]
pub enum ParticipantEvent<P, V> {
    /// A previously requested alarm has gone off.
    Alarm(),
    /// A peer delivered a message.
    Deliver(P, ParticipantMessage<V>),
    /// The embedder answers a request for a vote (`true` for yes).
    Vote(bool),
}

impl<P: Process, V: Value> TwoPhaseCommitEvent<P, V> {
    /// The participant event this unified event projects to, or `None` when
    /// only the coordinator can process it.
    pub open spec fn spec_participant_event(self) -> Option<ParticipantEvent<P, V>> {
        match self {
            TwoPhaseCommitEvent::Alarm() => Some(ParticipantEvent::Alarm()),
            TwoPhaseCommitEvent::Deliver(p, m) => match m.spec_participant_message() {
                Some(pm) => Some(ParticipantEvent::Deliver(p, pm)),
                None => None,
            },
            TwoPhaseCommitEvent::Start(_) => None,
            TwoPhaseCommitEvent::Vote(vote) => Some(ParticipantEvent::Vote(vote)),
        }
    }

    /// Projects the unified event onto the participant role; events only the
    /// coordinator can process are rejected.
    pub fn try_into_participant_event(self) -> (r: Result<ParticipantEvent<P, V>, InvalidStateError>)
        ensures
            (match self.spec_participant_event() {
                Some(e) => r matches Ok(p) && p == e,
                None => r is Err,
            }),
    {
        match self {
            TwoPhaseCommitEvent::Alarm() => Ok(ParticipantEvent::Alarm()),
            TwoPhaseCommitEvent::Deliver(p, m) => match m.try_into_participant_message() {
                Ok(pm) => Ok(ParticipantEvent::Deliver(p, pm)),
                Err(e) => Err(e),
            },
            TwoPhaseCommitEvent::Start(_) => Err(
                InvalidStateError::with_message(
                    "Start event can not be handled by a participant".to_owned(),
                ),
            ),
            TwoPhaseCommitEvent::Vote(vote) => Ok(ParticipantEvent::Vote(vote)),
        }
    }
}

impl<P: Process, V: Value> Adapt<TwoPhaseCommitEvent<P, V>> for ParticipantEvent<P, V> {
    open spec fn adapt_spec(value: TwoPhaseCommitEvent<P, V>) -> Option<Self> {
        value.spec_participant_event()
    }

    fn adapt(value: TwoPhaseCommitEvent<P, V>) -> Result<Self, InternalError> {
        match value.try_into_participant_event() {
            Ok(event) => Ok(event),
            Err(e) => Err(InternalError::with_message(e.get_message().clone())),
        }
    }
}

} // verus!
