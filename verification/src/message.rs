//! The messages exchanged between processes.

use vstd::prelude::*;

verus! {

/// A message sent between processes as part of a consensus algorithm.
///
/// Messages travel over the links that connect the processes; the algorithm
/// decides which messages to send and how to react to delivered ones.
pub trait Message: Sized {
    /// Returns a copy of the message.
    fn clone_message(&self) -> (r: Self)
        ensures
            r == *self,
    ;
}

} // verus!
