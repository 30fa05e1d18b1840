//! The lifecycle of a proposal: which changes of state are legal, and when.
//!
//! | from      | to        | guard                         |
//! |-----------|-----------|-------------------------------|
//! | Open      | Accepted  | the voting window has closed  |
//! | Open      | Rejected  | the voting window has closed  |
//! | Accepted  | Executing | none                          |
//! | Rejected  | Executing | none                          |
//! | Executing | Succeeded | none                          |
//! | Executing | Failed    | none                          |
//!
//! Every other pair is illegal. `Succeeded` and `Failed` are terminal.

use crate::store::{ascending, ProposalStore, StoreView};
use crate::types::{DaoError, Proposal, ProposalState, ProposalStateView, ProposalView};
use vstd::prelude::*;

verus! {

/// The voting window of a proposal is closed once the clock has reached its
/// end time.
pub open spec fn window_closed(end_time: u64, now: u64) -> bool {
    now >= end_time
}

/// The lifecycle table: whether a proposal in state `from`, whose voting
/// window ends at `end_time`, may move to state `to` at time `now`.
pub open spec fn transition_allowed(
    from: ProposalStateView,
    to: ProposalStateView,
    end_time: u64,
    now: u64,
) -> bool {
    match from {
        ProposalStateView::Open => (to is Accepted || to is Rejected) && window_closed(
            end_time,
            now,
        ),
        ProposalStateView::Accepted => to is Executing,
        ProposalStateView::Rejected => to is Executing,
        ProposalStateView::Executing => to is Succeeded || to is Failed,
        ProposalStateView::Succeeded => false,
        ProposalStateView::Failed(_) => false,
    }
}

/// A state that no transition leaves.
pub open spec fn is_terminal(state: ProposalStateView) -> bool {
    state is Succeeded || state is Failed
}

/// Whether the voting window that ends at `end_time` is closed at `now`.
pub fn is_window_closed(end_time: u64, now: u64) -> (closed: bool)
    ensures
        closed == window_closed(end_time, now),
{
    now >= end_time
}

/// Whether `state` is `Succeeded` or `Failed`.
pub fn is_terminal_state(state: &ProposalState) -> (terminal: bool)
    ensures
        terminal == is_terminal(state@),
{
    match state {
        ProposalState::Succeeded => true,
        ProposalState::Failed(_) => true,
        _ => false,
    }
}

/// Decides one transition: `Ok` with the requested state where the table
/// allows it, `IllegalTransition` otherwise. Nothing is changed.
pub fn next_state(current: &ProposalState, requested: ProposalState, end_time: u64, now: u64) -> (r:
    Result<ProposalState, DaoError>)
    ensures
        transition_allowed(current@, requested@, end_time, now) ==> r == Ok::<
            ProposalState,
            DaoError,
        >(requested),
        !transition_allowed(current@, requested@, end_time, now) ==> r == Err::<
            ProposalState,
            DaoError,
        >(DaoError::IllegalTransition),
{
    match current {
        ProposalState::Open => {
            if !is_window_closed(end_time, now) {
                return Err(DaoError::IllegalTransition);
            }
            match requested {
                ProposalState::Accepted => Ok(requested),
                ProposalState::Rejected => Ok(requested),
                _ => Err(DaoError::IllegalTransition),
            }
        },
        ProposalState::Accepted | ProposalState::Rejected => {
            match requested {
                ProposalState::Executing => Ok(requested),
                _ => Err(DaoError::IllegalTransition),
            }
        },
        ProposalState::Executing => {
            match requested {
                ProposalState::Succeeded => Ok(requested),
                ProposalState::Failed(_) => Ok(requested),
                _ => Err(DaoError::IllegalTransition),
            }
        },
        _ => Err(DaoError::IllegalTransition),
    }
}

/// Moves `proposal` to the `requested` state if the table allows it at time
/// `now`. On `IllegalTransition` the proposal is left exactly as it was; on
/// success only its state changes.
pub fn apply_transition(proposal: &mut Proposal, requested: ProposalState, now: u64) -> (r: Result<
    (),
    DaoError,
>)
    ensures
        transition_allowed(old(proposal)@.proposal_state, requested@, old(proposal).end_time, now)
            ==> r == Ok::<(), DaoError>(()) && final(proposal)@ == (ProposalView {
            proposal_state: requested@,
            ..old(proposal)@
        }),
        !transition_allowed(old(proposal)@.proposal_state, requested@, old(proposal).end_time, now)
            ==> r == Err::<(), DaoError>(DaoError::IllegalTransition)
            && *final(proposal) == *old(proposal),
{
    match next_state(&proposal.proposal_state, requested, proposal.end_time, now) {
        Ok(state) => {
            proposal.proposal_state = state;
            Ok(())
        },
        Err(e) => Err(e),
    }
}

/// The answer to a request, made at time `now`, to move the proposal stored
/// under `id` to the state `requested`.
pub open spec fn transition_result(
    store: StoreView,
    id: u64,
    requested: ProposalStateView,
    now: u64,
) -> Result<(), DaoError> {
    if !store.proposals.contains_key(id) {
        Err(DaoError::NotFound)
    } else if !transition_allowed(
        store.proposals[id].proposal_state,
        requested,
        store.proposals[id].end_time,
        now,
    ) {
        Err(DaoError::IllegalTransition)
    } else {
        Ok(())
    }
}

/// The store after that request: where it is granted the proposal is in the
/// requested state and nothing else differs; where it is refused the store
/// is as before.
pub open spec fn store_after_transition(
    store: StoreView,
    id: u64,
    requested: ProposalStateView,
    now: u64,
) -> StoreView {
    if transition_result(store, id, requested, now) is Ok {
        StoreView {
            proposals: store.proposals.insert(
                id,
                ProposalView { proposal_state: requested, ..store.proposals[id] },
            ),
            ..store
        }
    } else {
        store
    }
}

/// Moves the proposal stored under `id` to the state `requested`, at time
/// `now`.
///
/// Fails with `NotFound` if there is no such proposal and with
/// `IllegalTransition` if the lifecycle table has no such move or its guard
/// does not hold; a failed call changes nothing.
pub fn transition_state(
    store: &mut ProposalStore,
    id: u64,
    requested: ProposalState,
    now: u64,
) -> (r: Result<(), DaoError>)
    ensures
        r == transition_result(old(store)@, id, requested@, now),
        final(store)@ == store_after_transition(old(store)@, id, requested@, now),
        old(store)@.inv() ==> final(store)@.inv(),
{
    let r = match store.get_mut(id) {
        Ok(proposal) => apply_transition(proposal, requested, now),
        Err(e) => Err(e),
    };
    assert(store@.proposals =~= store_after_transition(
        old(store)@,
        id,
        requested@,
        now,
    ).proposals);
    r
}

/// The state that records the outcome of executing a proposal: `Succeeded`,
/// or `Failed` with the reason the execution hook gave.
pub open spec fn outcome_view(outcome: Result<(), String>) -> ProposalStateView {
    match outcome {
        Ok(_) => ProposalStateView::Succeeded,
        Err(reason) => ProposalStateView::Failed(reason@),
    }
}

/// The state that records `outcome`; a failure keeps its reason as given.
pub fn outcome_state(outcome: Result<(), String>) -> (state: ProposalState)
    ensures
        state@ == outcome_view(outcome),
        outcome matches Err(reason) ==> state == ProposalState::Failed(reason),
{
    match outcome {
        Ok(_) => ProposalState::Succeeded,
        Err(reason) => ProposalState::Failed(reason),
    }
}

/// Records the outcome of executing `proposal`: the move from `Executing` to
/// `Succeeded` or `Failed` of the lifecycle table, which no clock guards.
/// A proposal in any other state is left exactly as it was.
pub fn conclude(proposal: &mut Proposal, outcome: Result<(), String>) -> (r: Result<(), DaoError>)
    ensures
        old(proposal)@.proposal_state is Executing ==> r == Ok::<(), DaoError>(())
            && final(proposal)@ == (ProposalView {
            proposal_state: outcome_view(outcome),
            ..old(proposal)@
        }),
        !(old(proposal)@.proposal_state is Executing) ==> r == Err::<(), DaoError>(
            DaoError::IllegalTransition,
        ) && *final(proposal) == *old(proposal),
{
    match proposal.proposal_state {
        ProposalState::Executing => {
            proposal.proposal_state = outcome_state(outcome);
            Ok(())
        },
        _ => Err(DaoError::IllegalTransition),
    }
}

/// The answer to recording an outcome of executing the proposal stored
/// under `id`.
pub open spec fn execution_result(store: StoreView, id: u64) -> Result<(), DaoError> {
    if !store.proposals.contains_key(id) {
        Err(DaoError::NotFound)
    } else if !(store.proposals[id].proposal_state is Executing) {
        Err(DaoError::IllegalTransition)
    } else {
        Ok(())
    }
}

/// The store after recording that executing the proposal stored under `id`
/// ended in the state `outcome`: where the proposal was in `Executing` it is
/// in that state and nothing else differs; otherwise the store is as before.
pub open spec fn store_after_execution(
    store: StoreView,
    id: u64,
    outcome: ProposalStateView,
) -> StoreView {
    if execution_result(store, id) is Ok {
        StoreView {
            proposals: store.proposals.insert(
                id,
                ProposalView { proposal_state: outcome, ..store.proposals[id] },
            ),
            ..store
        }
    } else {
        store
    }
}

/// Records the outcome of executing the proposal stored under `id`:
/// `Succeeded`, or `Failed` with the reason given.
///
/// Fails with `NotFound` if there is no such proposal and with
/// `IllegalTransition` unless it is in `Executing`; a failed call changes
/// nothing.
pub fn finish_execution(store: &mut ProposalStore, id: u64, outcome: Result<(), String>) -> (r:
    Result<(), DaoError>)
    ensures
        r == execution_result(old(store)@, id),
        final(store)@ == store_after_execution(old(store)@, id, outcome_view(outcome)),
        old(store)@.inv() ==> final(store)@.inv(),
{
    let r = match store.get_mut(id) {
        Ok(proposal) => conclude(proposal, outcome),
        Err(e) => Err(e),
    };
    assert(store@.proposals =~= store_after_execution(
        old(store)@,
        id,
        outcome_view(outcome),
    ).proposals);
    r
}

/// Whether a proposal is stored under `id` and is in `Executing`.
pub open spec fn is_executing(store: StoreView, id: u64) -> bool {
    store.proposals.contains_key(id) && store.proposals[id].proposal_state is Executing
}

/// The ids of the proposals that are in `Executing`, in ascending order.
pub fn executing_ids(store: &ProposalStore) -> (ids: Vec<u64>)
    ensures
        ascending(ids@),
        forall|id: u64| ids@.contains(id) <==> is_executing(store@, id),
{
    let all = store.ids();
    let mut ids: Vec<u64> = Vec::new();
    let mut i: usize = 0;
    while i < all.len()
        invariant
            i <= all.len(),
            store@.lists_ids(all@),
            ascending(ids@),
            forall|a: int|
                0 <= a < ids@.len() ==> is_executing(store@, #[trigger] ids@[a]) && exists|k: int|
                    0 <= k < i && all@[k] == ids@[a],
            forall|k: int|
                0 <= k < i && is_executing(store@, #[trigger] all@[k]) ==> ids@.contains(all@[k]),
        decreases all.len() - i,
    {
        let id: u64 = all[i];
        let ghost found = ids@;
        if let Some(proposal) = store.find(id) {
            if let ProposalState::Executing = proposal.proposal_state {
                ids.push(id);
                assert(ids@[found.len() as int] == id);
                assert forall|k: int| 0 <= k < i && is_executing(
                    store@,
                    #[trigger] all@[k],
                ) implies ids@.contains(all@[k]) by {
                    let a = choose|a: int| 0 <= a < found.len() && found[a] == all@[k];
                    assert(ids@[a] == all@[k]);
                }
            }
        }
        i += 1;
    }
    assert forall|id: u64| is_executing(store@, id) implies ids@.contains(id) by {
        assert(all@.to_set().contains(id));
    }
    ids
}

} // verus!
