//! The coordinator's record of its participants and protocol position.

use vstd::prelude::*;

use crate::process::Process;
use crate::time::Time;

verus! {

/// The coordinator's record of a single participant.
#[derive(Clone, Debug, PartialEq, Eq)]
pub struct Participant<P> {
    /// The participant's process identifier.
    pub process: P,
    /// The vote received from the participant in the current epoch, or
    /// `None` while it has not voted.
    pub vote: Option<bool>,
    /// Whether the participant acknowledged the current epoch's decision.
    pub decision_ack: bool,
}

impl<P> Participant<P> {
    /// Builds the record of a participant that has not voted nor
    /// acknowledged a decision.
    pub fn new(process: P) -> (r: Participant<P>)
        ensures
            r.process == process,
            r.vote is None,
            !r.decision_ack,
    {
        Participant { process, vote: None, decision_ack: false }
    }
}

impl<P: Process> Participant<P> {
    /// Returns a copy of the record.
    pub fn clone_participant(&self) -> (r: Self)
        ensures
            r == *self,
    {
        Participant {
            process: self.process.clone_process(),
            vote: match self.vote {
                Some(v) => Some(v),
                None => None,
            },
            decision_ack: self.decision_ack,
        }
    }
}

/// Returns a copy of a participant list.
pub fn clone_participants<P: Process>(participants: &Vec<Participant<P>>) -> (r: Vec<
    Participant<P>,
>)
    ensures
        r@ == participants@,
{
    let mut r: Vec<Participant<P>> = Vec::new();
    let mut i: usize = 0;
    while i < participants.len()
        invariant
            i <= participants.len(),
            r@ == participants@.subrange(0, i as int),
        decreases participants.len() - i,
    {
        r.push(participants[i].clone_participant());
        assert(r@ == participants@.subrange(0, i + 1 as int));
        i = i + 1;
    }
    assert(participants@.subrange(0, participants@.len() as int) == participants@);
    r
}

/// The protocol position of a coordinator.
#[derive(Clone, Copy, Debug, PartialEq, Eq)]
pub enum CoordinatorState<T> {
    /// A decision to abort has been reached for the current epoch.
    Abort,
    /// A decision to commit has been reached for the current epoch.
    Commit,
    /// A vote request has been sent; votes are being collected. The field
    /// records when the collection started.
    Voting { vote_timeout_start: T },
    /// The decision has been announced; acknowledgements are being
    /// collected. The field records when the collection started.
    WaitingForDecisionAck { ack_timeout_start: T },
    /// Idle: awaiting a start event carrying the next value.
    WaitingForStart,
    /// All participants voted yes; awaiting the coordinator's own vote.
    WaitingForVote,
}

/// The coordinator-side role context: the participant records together with
/// the coordinator's protocol position.
#[derive(Debug, PartialEq, Eq)]
pub struct CoordinatorContext<P, T> {
    /// One record per participant.
    pub participants: Vec<Participant<P>>,
    /// The coordinator's protocol position.
    pub state: CoordinatorState<T>,
}

/// The mathematical content of a [`CoordinatorContext`]: the same fields
/// with the participant records as a sequence.
#[verifier::ext_equal]
pub ghost struct CoordinatorContextView<P, T> {
    /// One record per participant.
    pub participants: Seq<Participant<P>>,
    /// The coordinator's protocol position.
    pub state: CoordinatorState<T>,
}

impl<P, T> View for CoordinatorContext<P, T> {
    type V = CoordinatorContextView<P, T>;

    open spec fn view(&self) -> CoordinatorContextView<P, T> {
        CoordinatorContextView { participants: self.participants@, state: self.state }
    }
}

impl<P: Process, T: Time> CoordinatorContext<P, T> {
    /// Returns a copy of the role context.
    pub fn clone_role_context(&self) -> (r: Self)
        ensures
            r@ == self@,
    {
        CoordinatorContext { participants: clone_participants(&self.participants), state: self.state }
    }
}

} // verus!
