//! The participant's record of its peers and protocol position.

use vstd::prelude::*;

use crate::process::Process;
use crate::time::Time;

verus! {

/// The protocol position of a participant.
#[derive(Clone, Copy, Debug, PartialEq, Eq)]
pub enum ParticipantState<T> {
    /// A decision to abort has been received or taken for the current epoch.
    Abort,
    /// A decision to commit has been received for the current epoch.
    Commit,
    /// The vote has been sent to the coordinator; the decision is awaited.
    /// The fields record the vote and when the wait started.
    Voted { vote: bool, decision_timeout_start: T },
    /// Idle: awaiting the coordinator's vote request.
    WaitingForVoteRequest,
    /// A vote request has arrived; the embedder was asked for its vote.
    WaitingForVote,
}

/// The participant-side role context: the processes taking part in the
/// protocol together with the participant's protocol position.
#[derive(Debug, PartialEq, Eq)]
pub struct ParticipantContext<P, T> {
    /// The processes taking part in the protocol.
    pub participant_processes: Vec<P>,
    /// The participant's protocol position.
    pub state: ParticipantState<T>,
}

/// The mathematical content of a [`ParticipantContext`]: the same fields
/// with the process list as a sequence.
#[verifier::ext_equal]
pub ghost struct ParticipantContextView<P, T> {
    /// The processes taking part in the protocol.
    pub participant_processes: Seq<P>,
    /// The participant's protocol position.
    pub state: ParticipantState<T>,
}

impl<P, T> View for ParticipantContext<P, T> {
    type V = ParticipantContextView<P, T>;

    open spec fn view(&self) -> ParticipantContextView<P, T> {
        ParticipantContextView {
            participant_processes: self.participant_processes@,
            state: self.state,
        }
    }
}

/// Returns a copy of a process list.
pub fn clone_processes<P: Process>(processes: &Vec<P>) -> (r: Vec<P>)
    ensures
        r@ == processes@,
{
    let mut r: Vec<P> = Vec::new();
    let mut i: usize = 0;
    while i < processes.len()
        invariant
            i <= processes.len(),
            r@ == processes@.subrange(0, i as int),
        decreases processes.len() - i,
    {
        r.push(processes[i].clone_process());
        assert(r@ == processes@.subrange(0, i + 1 as int));
        i = i + 1;
    }
    assert(processes@.subrange(0, processes@.len() as int) == processes@);
    r
}

impl<P: Process, T: Time> ParticipantContext<P, T> {
    /// Returns a copy of the role context.
    pub fn clone_role_context(&self) -> (r: Self)
        ensures
            r@ == self@,
    {
        ParticipantContext {
            participant_processes: clone_processes(&self.participant_processes),
            state: self.state,
        }
    }
}

} // verus!
