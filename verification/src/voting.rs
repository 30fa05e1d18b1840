//! Recording votes and tallying them.
//!
//! A proposal holds its votes in the order they were cast, and each identity
//! votes at most once. The tally is computed from the vote list whenever it
//! is asked for; nothing is cached.

use crate::identity::same_principal;
use crate::store::{ProposalStore, StoreView};
use crate::types::{DaoError, Proposal, ProposalView, Votes};
use ic_cdk::export::Principal;
use vstd::prelude::*;

verus! {

/// Whether `voter` occurs in the vote list.
pub open spec fn has_voted(votes: Seq<(Principal, Votes)>, voter: Principal) -> bool {
    exists|i: int| 0 <= i < votes.len() && (#[trigger] votes[i]).0 == voter
}

/// The sum of the weights of the `Yes` votes.
pub open spec fn yes_total(votes: Seq<(Principal, Votes)>) -> nat
    decreases votes.len(),
{
    if votes.len() == 0 {
        0
    } else {
        yes_total(votes.drop_last()) + votes.last().1.yes_weight()
    }
}

/// The sum of the weights of the `No` votes.
pub open spec fn no_total(votes: Seq<(Principal, Votes)>) -> nat
    decreases votes.len(),
{
    if votes.len() == 0 {
        0
    } else {
        no_total(votes.drop_last()) + votes.last().1.no_weight()
    }
}

/// The weighted totals of a vote list.
#[derive(Clone, Copy, Debug, PartialEq, Eq, Structural)]
pub struct Tally {
    /// The sum of the weights of the `Yes` votes.
    pub yes: u128,
    /// The sum of the weights of the `No` votes.
    pub no: u128,
}

/// Both totals of a list of `n` votes stay below `n` times the largest weight.
proof fn lemma_totals_bounded(votes: Seq<(Principal, Votes)>)
    ensures
        yes_total(votes) <= votes.len() * u64::MAX,
        no_total(votes) <= votes.len() * u64::MAX,
    decreases votes.len(),
{
    if votes.len() > 0 {
        lemma_totals_bounded(votes.drop_last());
        assert((votes.len() - 1) * u64::MAX + u64::MAX == votes.len() * u64::MAX)
            by (nonlinear_arith);
    }
}

/// A list of at most `u64::MAX` votes has totals that fit in 128 bits.
proof fn lemma_totals_fit(votes: Seq<(Principal, Votes)>)
    requires
        votes.len() <= u64::MAX,
    ensures
        yes_total(votes) + u64::MAX <= u128::MAX,
        no_total(votes) + u64::MAX <= u128::MAX,
{
    lemma_totals_bounded(votes);
    assert(votes.len() * u64::MAX <= u64::MAX * u64::MAX) by (nonlinear_arith)
        requires
            votes.len() <= u64::MAX,
    ;
}

/// Whether `voter` has an entry in the vote list: a scan from the oldest
/// vote to the newest.
pub fn voted(votes: &Vec<(Principal, Votes)>, voter: &Principal) -> (found: bool)
    ensures
        found == has_voted(votes@, *voter),
{
    let mut i: usize = 0;
    while i < votes.len()
        invariant
            i <= votes.len(),
            forall|k: int| 0 <= k < i ==> (#[trigger] votes@[k]).0 != *voter,
        decreases votes.len() - i,
    {
        if same_principal(&votes[i].0, voter) {
            return true;
        }
        i += 1;
    }
    false
}

/// Records the vote of `voter` on `proposal`.
///
/// Fails with `AlreadyVoted`, leaving the proposal exactly as it was, if the
/// voter already has an entry. Otherwise the vote is appended after the votes
/// cast before it, and nothing else changes. Neither the state of the
/// proposal nor its voting window is consulted. A vote list without repeated
/// identities stays one.
pub fn record_vote(proposal: &mut Proposal, voter: Principal, vote: Votes) -> (r: Result<
    (),
    DaoError,
>)
    ensures
        has_voted(old(proposal)@.vote_data, voter) ==> r == Err::<(), DaoError>(
            DaoError::AlreadyVoted,
        ) && *final(proposal) == *old(proposal),
        !has_voted(old(proposal)@.vote_data, voter) ==> r == Ok::<(), DaoError>(())
            && final(proposal)@ == (ProposalView {
            vote_data: old(proposal)@.vote_data.push((voter, vote)),
            ..old(proposal)@
        }),
        old(proposal)@.wf() ==> final(proposal)@.wf(),
{
    if voted(&proposal.vote_data, &voter) {
        return Err(DaoError::AlreadyVoted);
    }
    proposal.vote_data.push((voter, vote));
    Ok(())
}

/// The tally of a vote list: the summed weights of its `Yes` votes and of its
/// `No` votes, each computed afresh from the list.
pub fn tally_votes(votes: &Vec<(Principal, Votes)>) -> (t: Tally)
    ensures
        t.yes == yes_total(votes@),
        t.no == no_total(votes@),
{
    let mut yes: u128 = 0;
    let mut no: u128 = 0;
    let mut i: usize = 0;
    while i < votes.len()
        invariant
            i <= votes.len(),
            yes == yes_total(votes@.take(i as int)),
            no == no_total(votes@.take(i as int)),
        decreases votes.len() - i,
    {
        proof {
            let prefix = votes@.take(i as int);
            let next = votes@.take(i + 1);
            lemma_totals_fit(prefix);
            assert(next.drop_last() == prefix);
        }
        match votes[i].1 {
            Votes::Yes(w) => {
                yes = yes + w as u128;
            },
            Votes::No(w) => {
                no = no + w as u128;
            },
        }
        i += 1;
    }
    assert(votes@.take(votes.len() as int) == votes@);
    Tally { yes, no }
}

/// The tally of a proposal.
pub fn tally(proposal: &Proposal) -> (t: Tally)
    ensures
        t.yes == yes_total(proposal@.vote_data),
        t.no == no_total(proposal@.vote_data),
{
    tally_votes(&proposal.vote_data)
}

/// The answer to `voter` casting a vote on the proposal stored under `id`.
pub open spec fn vote_result(store: StoreView, id: u64, voter: Principal) -> Result<(), DaoError> {
    if !store.proposals.contains_key(id) {
        Err(DaoError::NotFound)
    } else if has_voted(store.proposals[id].vote_data, voter) {
        Err(DaoError::AlreadyVoted)
    } else {
        Ok(())
    }
}

/// The store after `voter` has cast `vote` on the proposal stored under
/// `id`: where the vote is accepted it is the last entry of that proposal's
/// vote list, and nothing else differs; where it is refused the store is as
/// before.
pub open spec fn store_after_vote(
    store: StoreView,
    id: u64,
    voter: Principal,
    vote: Votes,
) -> StoreView {
    if vote_result(store, id, voter) is Ok {
        StoreView {
            proposals: store.proposals.insert(
                id,
                ProposalView {
                    vote_data: store.proposals[id].vote_data.push((voter, vote)),
                    ..store.proposals[id]
                },
            ),
            ..store
        }
    } else {
        store
    }
}

/// Casts the vote of `voter` on the proposal stored under `id`.
///
/// Fails with `NotFound` if there is no such proposal and with
/// `AlreadyVoted` if the voter has an entry in its vote list; a failed call
/// changes nothing. Otherwise the vote is appended to the list.
pub fn cast_vote(store: &mut ProposalStore, id: u64, voter: Principal, vote: Votes) -> (r: Result<
    (),
    DaoError,
>)
    ensures
        r == vote_result(old(store)@, id, voter),
        final(store)@ == store_after_vote(old(store)@, id, voter, vote),
        old(store)@.inv() ==> final(store)@.inv(),
{
    let r = match store.get_mut(id) {
        Ok(proposal) => record_vote(proposal, voter, vote),
        Err(e) => Err(e),
    };
    assert(store@.proposals =~= store_after_vote(old(store)@, id, voter, vote).proposals);
    r
}

} // verus!
