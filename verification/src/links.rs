//! Communication abstractions connecting processes.
//!
//! A link between two processes is provided by an implementation of
//! [`Sender`] on one side and [`Receiver`] on the other. The engine itself
//! never performs communication; an embedder implements these traits and
//! carries the messages named in the engine's actions.

use vstd::prelude::*;

use crate::error::InternalError;
use crate::message::Message;
use crate::process::Process;

verus! {

/// The sending half of a link.
pub trait Sender<P, M> where P: Process, M: Message {
    /// Sends a message to a given process.
    fn send(to_process: &P, message: M) -> Result<(), InternalError>;
}

/// The receiving half of a link.
///
/// A concrete receiver is handed each message delivered by a process and may
/// act on it as it sees fit.
pub trait Receiver<P, M> where P: Process, M: Message {
    /// Receives a message from a process.
    fn recv(from_process: &P, message: M) -> Result<(), InternalError>;
}

} // verus!
