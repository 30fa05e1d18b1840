//! The data model: votes, lifecycle states, proposals, request arguments and
//! errors, each with its mathematical view.

use ic_cdk::export::Principal;
use std::collections::HashMap;
use vstd::prelude::*;

verus! {

/// Voting weight.
pub type Equities = u64;

/// A vote together with the weight it was cast with. The weight is the
/// voter's weight at the time of voting; it is never looked up again.
#[derive(Clone, Copy, Debug, PartialEq, Eq, Structural)]
pub enum Votes {
    Yes(Equities),
    No(Equities),
}

impl Votes {
    /// The weight this vote adds to the "yes" side.
    pub open spec fn yes_weight(self) -> nat {
        match self {
            Votes::Yes(w) => w as nat,
            Votes::No(_) => 0,
        }
    }

    /// The weight this vote adds to the "no" side.
    pub open spec fn no_weight(self) -> nat {
        match self {
            Votes::Yes(_) => 0,
            Votes::No(w) => w as nat,
        }
    }
}

/// The state of a proposal.
#[derive(Debug, PartialEq, Eq)]
pub enum ProposalState {
    /// The proposal is open for voting.
    Open,
    /// The proposal was accepted and will be executed.
    Accepted,
    /// The proposal was rejected; execution may still be attempted for bookkeeping.
    Rejected,
    /// The proposal is being executed.
    Executing,
    /// The proposal has been executed successfully.
    Succeeded,
    /// Executing the proposal failed, for the given reason.
    Failed(String),
}

/// The mathematical value of a [`ProposalState`].
pub enum ProposalStateView {
    Open,
    Accepted,
    Rejected,
    Executing,
    Succeeded,
    Failed(Seq<char>),
}

impl View for ProposalState {
    type V = ProposalStateView;

    open spec fn view(&self) -> ProposalStateView {
        match self {
            ProposalState::Open => ProposalStateView::Open,
            ProposalState::Accepted => ProposalStateView::Accepted,
            ProposalState::Rejected => ProposalStateView::Rejected,
            ProposalState::Executing => ProposalStateView::Executing,
            ProposalState::Succeeded => ProposalStateView::Succeeded,
            ProposalState::Failed(reason) => ProposalStateView::Failed(reason@),
        }
    }
}

impl Clone for ProposalState {
    fn clone(&self) -> (res: Self)
        ensures
            res@ == self@,
    {
        match self {
            ProposalState::Open => ProposalState::Open,
            ProposalState::Accepted => ProposalState::Accepted,
            ProposalState::Rejected => ProposalState::Rejected,
            ProposalState::Executing => ProposalState::Executing,
            ProposalState::Succeeded => ProposalState::Succeeded,
            ProposalState::Failed(reason) => ProposalState::Failed(reason.clone()),
        }
    }
}

/// What can go wrong in an operation of the engine.
#[derive(Debug, PartialEq, Eq)]
pub enum DaoError {
    /// The caller is not a member of the organization.
    NotMember,
    /// No proposal has the given id.
    NotFound,
    /// The voter has already voted on the proposal.
    AlreadyVoted,
    /// The requested change of state is not in the lifecycle table, or the
    /// voting window it depends on is still open.
    IllegalTransition,
    /// A proposal with the same id is already stored.
    DuplicateId,
    /// A collaborator of the host failed; its message is passed on unread.
    HostError(String),
}

impl Clone for DaoError {
    fn clone(&self) -> (res: Self)
        ensures
            res == *self,
    {
        match self {
            DaoError::NotMember => DaoError::NotMember,
            DaoError::NotFound => DaoError::NotFound,
            DaoError::AlreadyVoted => DaoError::AlreadyVoted,
            DaoError::IllegalTransition => DaoError::IllegalTransition,
            DaoError::DuplicateId => DaoError::DuplicateId,
            DaoError::HostError(message) => DaoError::HostError(message.clone()),
        }
    }
}

impl DaoError {
    /// The text that describes the error; a failure of the host describes
    /// itself.
    pub open spec fn spec_message(self) -> Seq<char> {
        match self {
            DaoError::NotMember => "The caller is not a member"@,
            DaoError::NotFound => "The proposal does not exist"@,
            DaoError::AlreadyVoted => "Users have voted"@,
            DaoError::IllegalTransition =>
                "Failed to change status, the logic of the status parameter is incorrect"@,
            DaoError::DuplicateId => "The proposal id is already in use"@,
            DaoError::HostError(message) => message@,
        }
    }

    /// The text that describes the error, for hosts that report errors as
    /// strings.
    pub fn message(&self) -> (text: String)
        ensures
            text@ == self.spec_message(),
    {
        match self {
            DaoError::NotMember => "The caller is not a member".to_owned(),
            DaoError::NotFound => "The proposal does not exist".to_owned(),
            DaoError::AlreadyVoted => "Users have voted".to_owned(),
            DaoError::IllegalTransition =>
                "Failed to change status, the logic of the status parameter is incorrect".to_owned(),
            DaoError::DuplicateId => "The proposal id is already in use".to_owned(),
            DaoError::HostError(message) => message.clone(),
        }
    }
}

/// A single governance item submitted for a vote.
#[derive(Debug)]
pub struct Proposal {
    pub id: u64,
    pub proposer: Principal,
    pub title: String,
    pub content: String,
    pub proposal_state: ProposalState,
    /// The votes in the order they were cast; no identity occurs twice.
    pub vote_data: Vec<(Principal, Votes)>,
    /// Metadata of the host's domain; the engine carries it unread.
    pub property: Option<HashMap<String, String>>,
    /// The voting window is closed from this time on.
    pub end_time: u64,
    /// The time of submission.
    pub timestamp: u64,
}

/// No identity occurs twice in the vote list.
pub open spec fn distinct_voters(votes: Seq<(Principal, Votes)>) -> bool {
    forall|i: int, j: int|
        0 <= i < j < votes.len() ==> (#[trigger] votes[i]).0 != (#[trigger] votes[j]).0
}

/// The mathematical value of a [`Proposal`].
pub struct ProposalView {
    pub id: u64,
    pub proposer: Principal,
    pub title: Seq<char>,
    pub content: Seq<char>,
    pub proposal_state: ProposalStateView,
    pub vote_data: Seq<(Principal, Votes)>,
    pub property: Option<Map<String, String>>,
    pub end_time: u64,
    pub timestamp: u64,
}

impl ProposalView {
    /// The invariant of a proposal: no identity has two votes on it.
    pub open spec fn wf(self) -> bool {
        distinct_voters(self.vote_data)
    }
}

impl View for Proposal {
    type V = ProposalView;

    open spec fn view(&self) -> ProposalView {
        ProposalView {
            id: self.id,
            proposer: self.proposer,
            title: self.title@,
            content: self.content@,
            proposal_state: self.proposal_state@,
            vote_data: self.vote_data@,
            property: match self.property {
                Some(m) => Some(m@),
                None => None,
            },
            end_time: self.end_time,
            timestamp: self.timestamp,
        }
    }
}

impl Clone for Proposal {
    fn clone(&self) -> (res: Self)
        ensures
            res@ == self@,
    {
        let mut vote_data: Vec<(Principal, Votes)> = Vec::new();
        let mut i: usize = 0;
        while i < self.vote_data.len()
            invariant
                i <= self.vote_data.len(),
                vote_data@ == self.vote_data@.take(i as int),
            decreases self.vote_data.len() - i,
        {
            vote_data.push(self.vote_data[i]);
            i += 1;
        }
        assert(vote_data@ == self.vote_data@);
        let property = match &self.property {
            Some(m) => Some(m.clone()),
            None => None,
        };
        Proposal {
            id: self.id,
            proposer: self.proposer,
            title: self.title.clone(),
            content: self.content.clone(),
            proposal_state: self.proposal_state.clone(),
            vote_data,
            property,
            end_time: self.end_time,
            timestamp: self.timestamp,
        }
    }
}

/// What a member hands in to submit a proposal.
#[derive(Debug)]
pub struct ProposalArg {
    pub proposer: Principal,
    pub title: String,
    pub content: String,
    pub property: Option<HashMap<String, String>>,
    pub end_time: u64,
}

impl Clone for ProposalArg {
    fn clone(&self) -> (res: Self)
        ensures
            res.proposer == self.proposer,
            res.title@ == self.title@,
            res.content@ == self.content@,
            (res.property is Some) == (self.property is Some),
            res.property is Some ==> res.property->Some_0@ == self.property->Some_0@,
            res.end_time == self.end_time,
    {
        ProposalArg {
            proposer: self.proposer,
            title: self.title.clone(),
            content: self.content.clone(),
            property: match &self.property {
                Some(m) => Some(m.clone()),
                None => None,
            },
            end_time: self.end_time,
        }
    }
}

/// What a member hands in to vote.
#[derive(Clone, Copy, Debug)]
pub struct VotesArg {
    pub id: u64,
    pub caller: Principal,
    pub vote: Votes,
}

/// A request to move a proposal to another state.
#[derive(Debug)]
pub struct ChangeProposalStateArg {
    pub id: u64,
    pub state: ProposalState,
}

impl Clone for ChangeProposalStateArg {
    fn clone(&self) -> (res: Self)
        ensures
            res.id == self.id,
            res.state@ == self.state@,
    {
        ChangeProposalStateArg { id: self.id, state: self.state.clone() }
    }
}

} // verus!
