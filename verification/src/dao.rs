//! The engine: it puts the store, the voting rules and the lifecycle
//! together, and asks the host for what only the host knows.
//!
//! Each operation that depends on an answer of the host comes twice. One
//! form works on the store, takes the answer as an argument and says exactly
//! what it returns and changes for each possible answer ([`submit`],
//! [`vote`], [`finish_execution`]). The other is a method of [`DaoBasic`]:
//! it asks the host itself, through [`DaoCustomFn`], and then does what the
//! first form does.

use crate::lifecycle::{
    executing_ids, finish_execution, is_executing, outcome_view, store_after_transition,
    transition_result, transition_state,
};
use crate::store::{ascending, ProposalStore, StoreView};
use crate::types::{
    ChangeProposalStateArg, DaoError, Proposal, ProposalArg, ProposalState, ProposalStateView,
    ProposalView, VotesArg,
};
use crate::voting::{
    cast_vote, no_total, store_after_vote, tally, vote_result, yes_total, Tally,
};
use ic_cdk::export::Principal;
use vstd::prelude::*;

verus! {

/// What the host decides: who is a member, and what executing a proposal
/// means. Nothing is assumed of an implementation; the engine passes a
/// failure of `is_member` on and records a failure of `handle_proposal` in
/// the proposal. What an implementation promises of its answers, the engine's
/// contracts hand on to its callers.
pub trait DaoCustomFn {
    /// Whether `member` is a member of the organization.
    fn is_member(&self, member: Principal) -> Result<bool, String>;

    /// Executes `proposal`; an error is the reason why that failed.
    fn handle_proposal(&self, proposal: &Proposal) -> Result<(), String>;
}

/// The engine with the host's policy `custom_fn`.
pub struct DaoBasic<T: DaoCustomFn> {
    pub store: ProposalStore,
    pub custom_fn: T,
}

/// What the engine makes of the membership oracle's answer: a member is
/// admitted, anyone else is `NotMember`, and a failure of the oracle is
/// passed on as `HostError` with its message.
pub open spec fn admission(membership: Result<bool, String>) -> Result<(), DaoError> {
    match membership {
        Ok(member) => if member {
            Ok(())
        } else {
            Err(DaoError::NotMember)
        },
        Err(message) => Err(DaoError::HostError(message)),
    }
}

/// The proposal that a submission creates under `id` at time `now`: open,
/// without votes, and otherwise as the member handed it in.
pub open spec fn submitted(arg: ProposalArg, id: u64, now: u64) -> ProposalView {
    ProposalView {
        id,
        proposer: arg.proposer,
        title: arg.title@,
        content: arg.content@,
        proposal_state: ProposalStateView::Open,
        vote_data: Seq::empty(),
        property: match arg.property {
            Some(m) => Some(m@),
            None => None,
        },
        end_time: arg.end_time,
        timestamp: now,
    }
}

/// The answer to a submission: the id of the new proposal, which is the
/// store's next id, or the error. `DuplicateId` guards against a store whose
/// next id is in use.
pub open spec fn submit_result(store: StoreView, membership: Result<bool, String>) -> Result<
    u64,
    DaoError,
> {
    match admission(membership) {
        Err(e) => Err(e),
        Ok(_) => if store.proposals.contains_key(store.next_id) {
            Err(DaoError::DuplicateId)
        } else {
            Ok(store.next_id)
        },
    }
}

/// The store after a submission: where it is accepted the new proposal is
/// stored under the next id and the counter has moved on by one; where it is
/// refused the store is as before.
pub open spec fn store_after_submit(
    store: StoreView,
    membership: Result<bool, String>,
    arg: ProposalArg,
    now: u64,
) -> StoreView {
    if submit_result(store, membership) is Ok {
        StoreView {
            proposals: store.proposals.insert(store.next_id, submitted(arg, store.next_id, now)),
            next_id: (store.next_id + 1) as u64,
        }
    } else {
        store
    }
}

/// A submission with the oracle's answer `membership` took the store from
/// `before` to `after` and returned `r`.
pub open spec fn submit_post(
    before: StoreView,
    after: StoreView,
    membership: Result<bool, String>,
    arg: ProposalArg,
    now: u64,
    r: Result<Proposal, DaoError>,
) -> bool {
    &&& after == store_after_submit(before, membership, arg, now)
    &&& match submit_result(before, membership) {
        Ok(id) => r is Ok && r->Ok_0@ == submitted(arg, id, now),
        Err(e) => r is Err && r->Err_0 == e,
    }
}

/// A vote with the oracle's answer `membership` took the store from `before`
/// to `after` and returned `r`: a voter who is not admitted changes nothing,
/// and an admitted one votes as [`cast_vote`] says.
pub open spec fn vote_post(
    before: StoreView,
    after: StoreView,
    membership: Result<bool, String>,
    arg: VotesArg,
    r: Result<(), DaoError>,
) -> bool {
    match admission(membership) {
        Err(e) => r == Err::<(), DaoError>(e) && after == before,
        Ok(_) => r == vote_result(before, arg.id, arg.caller) && after == store_after_vote(
            before,
            arg.id,
            arg.caller,
            arg.vote,
        ),
    }
}

/// `answer` is an answer that the host's membership oracle gives about
/// `who`.
pub open spec fn oracle_answers<T: DaoCustomFn>(
    policy: T,
    who: Principal,
    answer: Result<bool, String>,
) -> bool {
    call_ensures(T::is_member, (&policy, who), answer)
}

/// `outcome` is an outcome that the host's execution hook returns for
/// `proposal`.
pub open spec fn hook_returns<T: DaoCustomFn>(
    policy: T,
    proposal: Proposal,
    outcome: Result<(), String>,
) -> bool {
    call_ensures(T::handle_proposal, (&policy, &proposal), outcome)
}

/// What running the execution handler makes of one proposal: one that was in
/// `Executing` is in the state of an outcome that the hook returned for it,
/// and otherwise unchanged; any other is as it was.
pub open spec fn executed<T: DaoCustomFn>(
    policy: T,
    before: ProposalView,
    after: ProposalView,
) -> bool {
    if before.proposal_state is Executing {
        exists|proposal: Proposal, outcome: Result<(), String>|
            proposal@ == before && #[trigger] hook_returns(policy, proposal, outcome) && after
                == (ProposalView { proposal_state: outcome_view(outcome), ..before })
    } else {
        after == before
    }
}

/// Submits a proposal, given the membership oracle's answer about the
/// proposer.
///
/// A proposer who is not admitted gets the error of [`admission`] and
/// nothing changes. Otherwise the proposal of [`submitted`] is stored
/// under the next id, with `now` as its time of submission, and a copy
/// of it is returned.
pub fn submit(
    store: &mut ProposalStore,
    membership: Result<bool, String>,
    arg: ProposalArg,
    now: u64,
) -> (r: Result<Proposal, DaoError>)
    requires
        submit_result(old(store)@, membership) is Ok ==> old(store)@.next_id < u64::MAX,
    ensures
        submit_post(old(store)@, final(store)@, membership, arg, now, r),
        old(store)@.inv() ==> final(store)@.inv() && !(r matches Err(DaoError::DuplicateId)),
{
    match membership {
        Ok(member) => {
            if !member {
                return Err(DaoError::NotMember);
            }
        },
        Err(message) => {
            return Err(DaoError::HostError(message));
        },
    }
    if store.contains(store.next_id) {
        return Err(DaoError::DuplicateId);
    }
    let id: u64 = store.allocate();
    let proposal = Proposal {
        id,
        proposer: arg.proposer,
        title: arg.title,
        content: arg.content,
        proposal_state: ProposalState::Open,
        vote_data: Vec::new(),
        property: arg.property,
        end_time: arg.end_time,
        timestamp: now,
    };
    let copy = proposal.clone();
    match store.insert(proposal) {
        Ok(_) => {
            assert(store@.proposals == store_after_submit(
                old(store)@,
                membership,
                arg,
                now,
            ).proposals);
            Ok(copy)
        },
        Err(e) => Err(e),
    }
}

/// Casts a vote, given the membership oracle's answer about the voter.
///
/// A voter who is not admitted gets the error of [`admission`], whether
/// or not the proposal exists. An admitted one votes as [`cast_vote`]
/// says. A call that fails changes nothing.
pub fn vote(store: &mut ProposalStore, membership: Result<bool, String>, arg: VotesArg) -> (r:
    Result<(), DaoError>)
    ensures
        vote_post(old(store)@, final(store)@, membership, arg, r),
        old(store)@.inv() ==> final(store)@.inv(),
{
    match membership {
        Ok(member) => {
            if !member {
                return Err(DaoError::NotMember);
            }
        },
        Err(message) => {
            return Err(DaoError::HostError(message));
        },
    }
    cast_vote(store, arg.id, arg.caller, arg.vote)
}

impl<T: DaoCustomFn> View for DaoBasic<T> {
    type V = StoreView;

    open spec fn view(&self) -> StoreView {
        self.store@
    }
}

impl<T: DaoCustomFn> DaoBasic<T> {
    /// An engine without proposals, whose first proposal will get the id 1.
    pub fn new(custom_fn: T) -> (dao: Self)
        ensures
            dao@.proposals == Map::<u64, ProposalView>::empty(),
            dao@.next_id == 1,
            dao@.inv(),
            dao.custom_fn == custom_fn,
    {
        DaoBasic { store: ProposalStore::new(), custom_fn }
    }

    /// Submits a proposal: asks the host whether `arg.proposer` is a member,
    /// then does what [`submit`] does with the answer.
    pub fn proposal(&mut self, arg: ProposalArg, now: u64) -> (r: Result<Proposal, DaoError>)
        requires
            old(self)@.next_id < u64::MAX,
        ensures
            exists|membership: Result<bool, String>|
                oracle_answers(old(self).custom_fn, arg.proposer, membership) && submit_post(
                    old(self)@,
                    final(self)@,
                    membership,
                    arg,
                    now,
                    r,
                ),
            old(self)@.inv() ==> final(self)@.inv() && !(r matches Err(DaoError::DuplicateId)),
            final(self).custom_fn == old(self).custom_fn,
    {
        let membership = self.custom_fn.is_member(arg.proposer);
        let r = submit(&mut self.store, membership, arg, now);
        assert(oracle_answers(self.custom_fn, arg.proposer, membership) && submit_post(
            old(self)@,
            self@,
            membership,
            arg,
            now,
            r,
        ));
        r
    }

    /// A copy of the proposal with the given id, or `NotFound`.
    pub fn get_proposal(&self, id: u64) -> (r: Result<Proposal, DaoError>)
        ensures
            self@.proposals.contains_key(id) ==> r is Ok && r->Ok_0@ == self@.proposals[id],
            !self@.proposals.contains_key(id) ==> r == Err::<Proposal, DaoError>(
                DaoError::NotFound,
            ),
    {
        self.store.get(id)
    }

    /// A copy of every proposal, each once.
    pub fn proposal_list(&self) -> (list: Vec<Proposal>)
        ensures
            self@.lists(list@.map_values(|p: Proposal| p@)),
    {
        self.store.list_all()
    }

    /// Casts a vote: asks the host whether `arg.caller` is a member, then
    /// does what [`vote`] does with the answer.
    pub fn vote(&mut self, arg: VotesArg) -> (r: Result<(), DaoError>)
        ensures
            exists|membership: Result<bool, String>|
                oracle_answers(old(self).custom_fn, arg.caller, membership) && vote_post(
                    old(self)@,
                    final(self)@,
                    membership,
                    arg,
                    r,
                ),
            old(self)@.inv() ==> final(self)@.inv(),
            final(self).custom_fn == old(self).custom_fn,
    {
        let membership = self.custom_fn.is_member(arg.caller);
        let r = vote(&mut self.store, membership, arg);
        assert(oracle_answers(self.custom_fn, arg.caller, membership) && vote_post(
            old(self)@,
            self@,
            membership,
            arg,
            r,
        ));
        r
    }

    /// The tally of the proposal with the given id, or `NotFound`.
    pub fn tally(&self, id: u64) -> (r: Result<Tally, DaoError>)
        ensures
            self@.proposals.contains_key(id) ==> r is Ok && r->Ok_0.yes == yes_total(
                self@.proposals[id].vote_data,
            ) && r->Ok_0.no == no_total(self@.proposals[id].vote_data),
            !self@.proposals.contains_key(id) ==> r == Err::<Tally, DaoError>(DaoError::NotFound),
    {
        match self.store.find(id) {
            Some(proposal) => Ok(tally(proposal)),
            None => Err(DaoError::NotFound),
        }
    }

    /// Moves the proposal `arg.id` to the state `arg.state`, at time `now`,
    /// as [`transition_state`] says.
    pub fn change_proposal_state(&mut self, arg: ChangeProposalStateArg, now: u64) -> (r: Result<
        (),
        DaoError,
    >)
        ensures
            r == transition_result(old(self)@, arg.id, arg.state@, now),
            final(self)@ == store_after_transition(old(self)@, arg.id, arg.state@, now),
            old(self)@.inv() ==> final(self)@.inv(),
            final(self).custom_fn == old(self).custom_fn,
    {
        transition_state(&mut self.store, arg.id, arg.state, now)
    }

    /// Runs the execution hook of the host once for each proposal that is in
    /// `Executing`, by ascending id, and records what it returns: `Succeeded`
    /// where the hook succeeds, `Failed` with the hook's reason where it
    /// fails. Proposals in other states are not touched, and none is added or
    /// removed.
    pub fn handle_proposal(&mut self)
        ensures
            final(self)@.next_id == old(self)@.next_id,
            final(self)@.proposals.dom() == old(self)@.proposals.dom(),
            forall|id: u64| #[trigger]
                old(self)@.proposals.contains_key(id) ==> executed(
                    old(self).custom_fn,
                    old(self)@.proposals[id],
                    final(self)@.proposals[id],
                ),
            old(self)@.inv() ==> final(self)@.inv(),
            final(self).custom_fn == old(self).custom_fn,
    {
        let ghost before = self@;
        let ghost policy = self.custom_fn;
        let ids = executing_ids(&self.store);
        let mut i: usize = 0;
        while i < ids.len()
            invariant
                i <= ids.len(),
                self.custom_fn == policy,
                self@.next_id == before.next_id,
                self@.proposals.dom() == before.proposals.dom(),
                ascending(ids@),
                forall|id: u64| ids@.contains(id) <==> is_executing(before, id),
                forall|k: int|
                    0 <= k < i ==> executed(
                        policy,
                        before.proposals[#[trigger] ids@[k]],
                        self@.proposals[ids@[k]],
                    ),
                forall|k: int|
                    i <= k < ids@.len() ==> self@.proposals[#[trigger] ids@[k]]
                        == before.proposals[ids@[k]],
                forall|id: u64|
                    !ids@.contains(id) ==> #[trigger] self@.proposals[id] == before.proposals[id],
                before.inv() ==> self@.inv(),
            decreases ids.len() - i,
        {
            let id: u64 = ids[i];
            let ghost here = self@;
            if let Some(proposal) = self.store.find(id) {
                let ghost handed = *proposal;
                let outcome = self.custom_fn.handle_proposal(proposal);
                let _ = finish_execution(&mut self.store, id, outcome);
                assert(hook_returns(policy, handed, outcome));
            }
            assert(is_executing(before, id));
            assert(forall|k: int|
                0 <= k < i ==> self@.proposals[#[trigger] ids@[k]] == here.proposals[ids@[k]]);
            i += 1;
        }
    }
}

} // verus!
