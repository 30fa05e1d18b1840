//! What holds of the engine as a whole, proved from the definitions that
//! the contracts of its functions are written in.

use crate::dao::{
    admission, executed, store_after_submit, submit_post, submit_result, submitted, vote_post,
    DaoCustomFn,
};
use crate::lifecycle::{
    execution_result, is_terminal, outcome_view, store_after_execution, store_after_transition,
    transition_allowed, transition_result, window_closed,
};
use crate::store::{ascending, StoreView};
use crate::types::{
    DaoError, Proposal, ProposalArg, ProposalStateView, ProposalView, Votes, VotesArg,
};
use crate::voting::{has_voted, no_total, store_after_vote, vote_result, yes_total};
use ic_cdk::export::Principal;
use vstd::prelude::*;

verus! {

/// A submission by someone the membership oracle does not recognize fails
/// with `NotMember` and leaves the store as it was.
pub proof fn law_submit_by_non_member(
    before: StoreView,
    after: StoreView,
    arg: ProposalArg,
    now: u64,
    r: Result<Proposal, DaoError>,
)
    requires
        submit_post(before, after, Ok(false), arg, now, r),
    ensures
        r is Err && r->Err_0 == DaoError::NotMember,
        after == before,
{
}

/// A vote by someone the membership oracle does not recognize fails with
/// `NotMember` and leaves the store as it was, whether or not the proposal
/// exists.
pub proof fn law_vote_by_non_member(
    before: StoreView,
    after: StoreView,
    arg: VotesArg,
    r: Result<(), DaoError>,
)
    requires
        vote_post(before, after, Ok(false), arg, r),
    ensures
        r == Err::<(), DaoError>(DaoError::NotMember),
        after == before,
{
}

/// When the membership oracle itself fails, a submission and a vote pass
/// its message on as `HostError` and leave the store as it was.
pub proof fn law_oracle_failure_is_passed_on(
    before: StoreView,
    message: String,
    proposal: ProposalArg,
    now: u64,
    after_submit: StoreView,
    submitted: Result<Proposal, DaoError>,
    ballot: VotesArg,
    after_vote: StoreView,
    voted: Result<(), DaoError>,
)
    requires
        submit_post(before, after_submit, Err(message), proposal, now, submitted),
        vote_post(before, after_vote, Err(message), ballot, voted),
    ensures
        submitted is Err && submitted->Err_0 == DaoError::HostError(message),
        after_submit == before,
        voted == Err::<(), DaoError>(DaoError::HostError(message)),
        after_vote == before,
{
}

/// Only a caller whom the oracle recognizes as a member is admitted.
pub proof fn law_only_members_are_admitted(membership: Result<bool, String>)
    ensures
        admission(membership) is Ok <==> membership == Ok::<bool, String>(true),
{
}

/// On an id that is not in the store, a vote and a change of state fail with
/// `NotFound` and leave the store as it was.
pub proof fn law_absent_id_is_not_found(
    store: StoreView,
    id: u64,
    voter: Principal,
    vote: Votes,
    requested: ProposalStateView,
    now: u64,
)
    requires
        !store.proposals.contains_key(id),
    ensures
        vote_result(store, id, voter) == Err::<(), DaoError>(DaoError::NotFound),
        store_after_vote(store, id, voter, vote) == store,
        transition_result(store, id, requested, now) == Err::<(), DaoError>(DaoError::NotFound),
        store_after_transition(store, id, requested, now) == store,
{
}

/// A member who votes on an id that is not in the store gets `NotFound`.
pub proof fn law_member_vote_on_absent_id(
    before: StoreView,
    after: StoreView,
    membership: Result<bool, String>,
    arg: VotesArg,
    r: Result<(), DaoError>,
)
    requires
        admission(membership) is Ok,
        !before.proposals.contains_key(arg.id),
        vote_post(before, after, membership, arg, r),
    ensures
        r == Err::<(), DaoError>(DaoError::NotFound),
        after == before,
{
}

/// An accepted vote is the last entry of the proposal's vote list, after
/// all the votes cast before it, and the voter then counts as having voted.
pub proof fn law_vote_is_appended(store: StoreView, id: u64, voter: Principal, vote: Votes)
    requires
        vote_result(store, id, voter) is Ok,
    ensures
        ({
            let votes = store.proposals[id].vote_data;
            let after = store_after_vote(store, id, voter, vote).proposals[id].vote_data;
            &&& after.len() == votes.len() + 1
            &&& after.last() == (voter, vote)
            &&& forall|i: int| 0 <= i < votes.len() ==> after[i] == votes[i]
            &&& has_voted(after, voter)
        }),
{
    let votes = store.proposals[id].vote_data;
    let after = store_after_vote(store, id, voter, vote).proposals[id].vote_data;
    assert(after[votes.len() as int].0 == voter);
}

/// An accepted vote changes the vote list of its proposal and nothing else:
/// not its state or any other field, not another proposal, not the id
/// counter.
pub proof fn law_vote_changes_only_the_vote_list(
    store: StoreView,
    id: u64,
    voter: Principal,
    vote: Votes,
    other: u64,
)
    requires
        vote_result(store, id, voter) is Ok,
    ensures
        ({
            let after = store_after_vote(store, id, voter, vote);
            &&& after.next_id == store.next_id
            &&& after.proposals.dom() == store.proposals.dom()
            &&& after.proposals[id] == (ProposalView {
                vote_data: after.proposals[id].vote_data,
                ..store.proposals[id]
            })
            &&& other != id ==> after.proposals[other] == store.proposals[other]
        }),
{
    let after = store_after_vote(store, id, voter, vote);
    assert(after.proposals.dom() =~= store.proposals.dom());
}

/// A second vote by the same identity on the same proposal fails with
/// `AlreadyVoted`, and the store, and so the first vote and its weight, stay
/// as they were.
pub proof fn law_second_vote_is_refused(
    store: StoreView,
    id: u64,
    voter: Principal,
    first: Votes,
    second: Votes,
)
    requires
        vote_result(store, id, voter) is Ok,
    ensures
        ({
            let after = store_after_vote(store, id, voter, first);
            &&& vote_result(after, id, voter) == Err::<(), DaoError>(DaoError::AlreadyVoted)
            &&& store_after_vote(after, id, voter, second) == after
        }),
{
    law_vote_is_appended(store, id, voter, first);
}

/// No identity has two entries in a vote list: a list without repeated
/// identities has none after any vote, accepted or refused.
pub proof fn law_one_vote_per_identity(store: StoreView, id: u64, voter: Principal, vote: Votes)
    requires
        store.proposals.contains_key(id),
        store.proposals[id].wf(),
    ensures
        store_after_vote(store, id, voter, vote).proposals[id].wf(),
{
}

/// The totals of the empty vote list are zero.
pub proof fn law_tally_of_no_votes()
    ensures
        yes_total(Seq::<(Principal, Votes)>::empty()) == 0,
        no_total(Seq::<(Principal, Votes)>::empty()) == 0,
{
}

/// A vote adds its weight to its own side of the tally and nothing to the
/// other side.
pub proof fn law_tally_counts_each_vote(
    votes: Seq<(Principal, Votes)>,
    voter: Principal,
    vote: Votes,
)
    ensures
        yes_total(votes.push((voter, vote))) == yes_total(votes) + vote.yes_weight(),
        no_total(votes.push((voter, vote))) == no_total(votes) + vote.no_weight(),
        vote is Yes ==> vote.yes_weight() == vote->Yes_0 && vote.no_weight() == 0,
        vote is No ==> vote.no_weight() == vote->No_0 && vote.yes_weight() == 0,
{
    let pushed = votes.push((voter, vote));
    assert(pushed.drop_last() == votes);
}

/// A vote that is refused leaves the tally of every proposal as it was.
pub proof fn law_refused_vote_keeps_tally(
    store: StoreView,
    id: u64,
    voter: Principal,
    vote: Votes,
    other: u64,
)
    requires
        vote_result(store, id, voter) is Err,
    ensures
        store_after_vote(store, id, voter, vote).proposals[other].vote_data
            == store.proposals[other].vote_data,
{
}

/// The lifecycle table, row by row: these six moves, under these guards,
/// and no other.
pub proof fn law_lifecycle_table(
    from: ProposalStateView,
    to: ProposalStateView,
    end_time: u64,
    now: u64,
)
    ensures
        transition_allowed(from, to, end_time, now) <==> {
            ||| from is Open && to is Accepted && now >= end_time
            ||| from is Open && to is Rejected && now >= end_time
            ||| from is Accepted && to is Executing
            ||| from is Rejected && to is Executing
            ||| from is Executing && to is Succeeded
            ||| from is Executing && to is Failed
        },
{
}

/// An open proposal cannot be accepted or rejected while its voting window
/// is open, can be once the window has closed, and can never go straight to
/// `Executing`.
pub proof fn law_open_proposal_waits_for_its_window(end_time: u64, now: u64)
    ensures
        now < end_time ==> !transition_allowed(
            ProposalStateView::Open,
            ProposalStateView::Accepted,
            end_time,
            now,
        ) && !transition_allowed(
            ProposalStateView::Open,
            ProposalStateView::Rejected,
            end_time,
            now,
        ),
        now >= end_time ==> transition_allowed(
            ProposalStateView::Open,
            ProposalStateView::Accepted,
            end_time,
            now,
        ) && transition_allowed(
            ProposalStateView::Open,
            ProposalStateView::Rejected,
            end_time,
            now,
        ),
        !transition_allowed(
            ProposalStateView::Open,
            ProposalStateView::Executing,
            end_time,
            now,
        ),
{
}

/// A voting window that is closed stays closed as the clock moves on.
pub proof fn law_closed_window_stays_closed(end_time: u64, now: u64, later: u64)
    requires
        window_closed(end_time, now),
        now <= later,
    ensures
        window_closed(end_time, later),
{
}

/// `Succeeded` and `Failed` are terminal: no move leaves them, at any time.
pub proof fn law_terminal_states_are_final(
    from: ProposalStateView,
    to: ProposalStateView,
    end_time: u64,
    now: u64,
)
    requires
        is_terminal(from),
    ensures
        !transition_allowed(from, to, end_time, now),
{
}

/// A change of state that is refused leaves the store as it was, and one
/// that is granted changes the state of that one proposal and nothing else.
pub proof fn law_transition_changes_only_the_state(
    store: StoreView,
    id: u64,
    requested: ProposalStateView,
    now: u64,
    other: u64,
)
    ensures
        transition_result(store, id, requested, now) is Err ==> store_after_transition(
            store,
            id,
            requested,
            now,
        ) == store,
        transition_result(store, id, requested, now) is Ok ==> ({
            let after = store_after_transition(store, id, requested, now);
            &&& after.next_id == store.next_id
            &&& after.proposals.dom() == store.proposals.dom()
            &&& after.proposals[id].proposal_state == requested
            &&& after.proposals[id].vote_data == store.proposals[id].vote_data
            &&& after.proposals[id].id == store.proposals[id].id
            &&& after.proposals[id].end_time == store.proposals[id].end_time
            &&& other != id ==> after.proposals[other] == store.proposals[other]
        }),
{
}

/// A proposal that fails in execution keeps the reason it failed with, and
/// every later request to change its state fails with `IllegalTransition`.
pub proof fn law_failure_is_recorded_and_final(
    store: StoreView,
    id: u64,
    reason: Seq<char>,
    now: u64,
    next: ProposalStateView,
    later: u64,
)
    requires
        store.proposals.contains_key(id),
        store.proposals[id].proposal_state is Executing,
    ensures
        ({
            let failed = ProposalStateView::Failed(reason);
            let after = store_after_transition(store, id, failed, now);
            &&& transition_result(store, id, ProposalStateView::Failed(reason), now) == Ok::<
                (),
                DaoError,
            >(())
            &&& after.proposals[id].proposal_state == ProposalStateView::Failed(reason)
            &&& transition_result(after, id, next, later) == Err::<(), DaoError>(
                DaoError::IllegalTransition,
            )
            &&& store_after_transition(after, id, next, later) == after
        }),
{
}

/// Recording the outcome of an execution is the lifecycle table's move from
/// `Executing` to `Succeeded` or `Failed`, whatever the time: it answers and
/// changes the store as a request for that move does.
pub proof fn law_outcome_is_a_move_of_the_table(
    store: StoreView,
    id: u64,
    outcome: Result<(), String>,
    now: u64,
)
    ensures
        is_terminal(outcome_view(outcome)),
        execution_result(store, id) == transition_result(store, id, outcome_view(outcome), now),
        store_after_execution(store, id, outcome_view(outcome)) == store_after_transition(
            store,
            id,
            outcome_view(outcome),
            now,
        ),
{
}

/// An execution hook that fails leaves its reason, letter for letter, in
/// the proposal, and the proposal in a terminal state.
pub proof fn law_hook_failure_is_recorded(store: StoreView, id: u64, reason: String)
    requires
        store.proposals.contains_key(id),
        store.proposals[id].proposal_state is Executing,
    ensures
        execution_result(store, id) == Ok::<(), DaoError>(()),
        store_after_execution(store, id, outcome_view(Err(reason))).proposals[id].proposal_state
            == ProposalStateView::Failed(reason@),
        execution_result(store_after_execution(store, id, outcome_view(Err(reason))), id)
            == Err::<(), DaoError>(DaoError::IllegalTransition),
{
}

/// Running the execution handler settles the proposals that are being
/// executed and touches no other: one that was in `Executing` ends in
/// `Succeeded` or `Failed` with nothing but its state changed, and any other
/// stays as it was.
pub proof fn law_handler_settles_what_is_executing<T: DaoCustomFn>(
    policy: T,
    before: ProposalView,
    after: ProposalView,
)
    requires
        executed(policy, before, after),
    ensures
        before.proposal_state is Executing ==> is_terminal(after.proposal_state),
        !(before.proposal_state is Executing) ==> after == before,
        after == (ProposalView { proposal_state: after.proposal_state, ..before }),
{
}

/// Submissions of members take consecutive ids: each gets the store's next
/// id, and the one after it gets the id one higher. Neither takes the place
/// of a proposal that was there before.
pub proof fn law_submissions_take_consecutive_ids(
    store: StoreView,
    first: ProposalArg,
    second: ProposalArg,
    now: u64,
    later: u64,
    earlier: u64,
)
    requires
        store.inv(),
        store.next_id + 1 < u64::MAX,
    ensures
        ({
            let id = store.next_id;
            let next = (store.next_id + 1) as u64;
            let after_first = store_after_submit(store, Ok(true), first, now);
            let after_both = store_after_submit(after_first, Ok(true), second, later);
            &&& submit_result(store, Ok(true)) == Ok::<u64, DaoError>(id)
            &&& submit_result(after_first, Ok(true)) == Ok::<u64, DaoError>(next)
            &&& after_both.next_id == id + 2
            &&& after_both.proposals[id] == submitted(first, id, now)
            &&& after_both.proposals[next] == submitted(second, next, later)
            &&& store.proposals.contains_key(earlier) ==> after_both.proposals[earlier]
                == store.proposals[earlier]
            &&& after_both.proposals.dom() == store.proposals.dom().insert(id).insert(next)
            &&& after_both.inv()
        }),
{
}

/// In a store that satisfies the engine's invariant the ids in use are
/// 1, 2, ... without a gap, as many as there are proposals, and each
/// proposal carries the id it is stored under.
pub proof fn law_ids_are_dense(store: StoreView)
    requires
        store.inv(),
    ensures
        store.proposals.dom().len() == store.next_id - 1,
        forall|id: u64|
            store.proposals.contains_key(id) <==> 1 <= id < store.next_id,
        forall|id: u64| #[trigger]
            store.proposals.contains_key(id) ==> store.proposals[id].id == id,
    decreases store.next_id,
{
    if store.next_id > 1 {
        let last: u64 = (store.next_id - 1) as u64;
        let smaller = StoreView { proposals: store.proposals.remove(last), next_id: last };
        law_ids_are_dense(smaller);
    } else {
        assert(store.proposals.dom() =~= Set::<u64>::empty());
    }
}

/// An ascending list of ids holds, at each place, an id that is at least
/// as far from the first as the place is, and at most as far from the last.
proof fn lemma_ascending_spacing(ids: Seq<u64>, i: int)
    requires
        ascending(ids),
        0 <= i < ids.len(),
    ensures
        ids[0] + i <= ids[i],
        ids[i] + (ids.len() - 1 - i) <= ids.last(),
    decreases ids.len(),
{
    if ids.len() > 1 {
        if i > 0 {
            lemma_ascending_spacing(ids.drop_last(), i - 1);
            assert(ids[i - 1] < ids[i]);
        }
        if i < ids.len() - 1 {
            lemma_ascending_spacing(ids.drop_first(), i);
            assert(ids[i] < ids[i + 1]);
        }
    }
}

/// Two ascending lists of the same ids are the same list.
proof fn lemma_ascending_is_unique(a: Seq<u64>, b: Seq<u64>)
    requires
        ascending(a),
        ascending(b),
        a.to_set() == b.to_set(),
    ensures
        a == b,
    decreases a.len(),
{
    a.unique_seq_to_set();
    b.unique_seq_to_set();
    if a.len() > 0 {
        assert(b.to_set().contains(a.last()));
        assert(a.to_set().contains(b.last()));
        assert(a.last() == b.last()) by {
            let in_b = choose|k: int| 0 <= k < b.len() && b[k] == a.last();
            let in_a = choose|k: int| 0 <= k < a.len() && a[k] == b.last();
            assert(b[in_b] <= b.last() && a[in_a] <= a.last());
        }
        assert forall|x: u64|
            a.drop_last().to_set().contains(x) <==> b.drop_last().to_set().contains(x) by {
            if a.drop_last().contains(x) {
                let k = choose|k: int| 0 <= k < a.len() - 1 && a.drop_last()[k] == x;
                assert(a[k] < a.last());
                assert(b.to_set().contains(a[k]));
                let j = choose|j: int| 0 <= j < b.len() && b[j] == x;
                assert(b.drop_last()[j] == x);
            }
            if b.drop_last().contains(x) {
                let k = choose|k: int| 0 <= k < b.len() - 1 && b.drop_last()[k] == x;
                assert(b[k] < b.last());
                assert(a.to_set().contains(b[k]));
                let j = choose|j: int| 0 <= j < a.len() && a[j] == x;
                assert(a.drop_last()[j] == x);
            }
        }
        assert(a.drop_last().to_set() =~= b.drop_last().to_set());
        lemma_ascending_is_unique(a.drop_last(), b.drop_last());
        assert(a == a.drop_last().push(a.last()));
        assert(b == b.drop_last().push(a.last()));
    }
}

/// The listing of a store is determined by the store: any two listings of
/// the same store are equal, entry by entry and in the same order.
pub proof fn law_listing_is_stable(
    store: StoreView,
    first: Seq<ProposalView>,
    second: Seq<ProposalView>,
)
    requires
        store.lists(first),
        store.lists(second),
    ensures
        first == second,
{
    let a = choose|ids: Seq<u64>| store.pairs(ids, first);
    let b = choose|ids: Seq<u64>| store.pairs(ids, second);
    lemma_ascending_is_unique(a, b);
}

/// The listing of a store that satisfies the engine's invariant holds the
/// proposals with the ids 1, 2, 3, ... in this order, one for each id that
/// was handed out.
pub proof fn law_listing_is_by_id(store: StoreView, list: Seq<ProposalView>)
    requires
        store.inv(),
        store.lists(list),
    ensures
        list.len() == store.next_id - 1,
        forall|i: int|
            0 <= i < list.len() ==> #[trigger] list[i] == store.proposals[(i + 1) as u64]
                && list[i].id == i + 1,
{
    let ids = choose|ids: Seq<u64>| store.pairs(ids, list);
    law_ids_are_dense(store);
    ids.unique_seq_to_set();
    assert forall|i: int| 0 <= i < list.len() implies #[trigger] list[i] == store.proposals[(i
        + 1) as u64] && list[i].id == i + 1 by {
        lemma_ascending_spacing(ids, i);
        assert(ids.to_set().contains(ids[0]));
        assert(ids.to_set().contains(ids.last()));
        assert(ids.to_set().contains(ids[i]));
    }
}

/// The engine's invariant holds of the empty store and is kept by every
/// submission, vote, change of state and recorded execution.
pub proof fn law_invariant_is_kept(
    store: StoreView,
    membership: Result<bool, String>,
    arg: ProposalArg,
    id: u64,
    voter: Principal,
    vote: Votes,
    requested: ProposalStateView,
    now: u64,
)
    requires
        store.inv(),
        store.next_id < u64::MAX,
    ensures
        (StoreView { proposals: Map::<u64, ProposalView>::empty(), next_id: 1 }).inv(),
        store_after_submit(store, membership, arg, now).inv(),
        store_after_vote(store, id, voter, vote).inv(),
        store_after_transition(store, id, requested, now).inv(),
        store_after_execution(store, id, requested).inv(),
{
}

} // verus!
