//! Errors surfaced by algorithms while processing events.

use vstd::prelude::*;

verus! {

/// An error returned when an event cannot be processed because the engine or
/// its context is in a state that the event is not valid for. It indicates
/// misuse by the caller, not peer misbehavior.
#[derive(Debug)]
pub struct InvalidStateError {
    message: String,
}

impl InvalidStateError {
    /// Builds an error carrying the given diagnostic message.
    pub fn with_message(message: String) -> (r: Self)
        ensures
            r.message() == message,
    {
        InvalidStateError { message }
    }

    /// The diagnostic message the error was built with.
    pub closed spec fn message(&self) -> String {
        self.message
    }

    /// Returns the diagnostic message.
    pub fn get_message(&self) -> (r: &String)
        ensures
            r == self.message(),
    {
        &self.message
    }
}

/// An unexpected internal failure, such as a conversion that should have
/// succeeded but did not.
#[derive(Debug)]
pub struct InternalError {
    message: String,
}

impl InternalError {
    /// Builds an error carrying the given diagnostic message.
    pub fn with_message(message: String) -> (r: Self)
        ensures
            r.message() == message,
    {
        InternalError { message }
    }

    /// The diagnostic message the error was built with.
    pub closed spec fn message(&self) -> String {
        self.message
    }

    /// Returns the diagnostic message.
    pub fn get_message(&self) -> (r: &String)
        ensures
            r == self.message(),
    {
        &self.message
    }
}

/// An error which can occur while an algorithm is processing an event.
#[derive(Debug)]
pub enum AlgorithmError {
    /// The provided event cannot be processed with the provided context.
    InvalidState(InvalidStateError),
    /// The algorithm could not process the event due to an unexpected
    /// internal error.
    Internal(InternalError),
}

} // verus!
