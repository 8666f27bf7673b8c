//! The identity of a peer taking part in a consensus algorithm.

use vstd::prelude::*;

verus! {

/// A process identifier.
///
/// Algorithms never inspect the contents of a process identifier; they only
/// compare identifiers for equality and copy them into outgoing messages.
/// Two identifiers denote the same peer exactly when their views are equal.
pub trait Process: View + Sized {
    /// Returns whether the two identifiers denote the same peer.
    fn eq_process(&self, other: &Self) -> (r: bool)
        ensures
            r == (self@ == other@),
    ;

    /// Returns a copy of the identifier.
    fn clone_process(&self) -> (r: Self)
        ensures
            r == *self,
    ;
}

impl Process for String {
    fn eq_process(&self, other: &Self) -> (r: bool)
        ensures
            r == (self@ == other@),
    {
        *self == *other
    }

    fn clone_process(&self) -> (r: Self)
        ensures
            r == *self,
    {
        self.clone()
    }
}

impl Process for u64 {
    fn eq_process(&self, other: &Self) -> (r: bool)
        ensures
            r == (self@ == other@),
    {
        *self == *other
    }

    fn clone_process(&self) -> (r: Self)
        ensures
            r == *self,
    {
        *self
    }
}

} // verus!
