//! The proposal store: the proposals by id, and the counter that hands out
//! ids. Proposals are added and changed, never removed.

use crate::types::{DaoError, Proposal, ProposalView};
use std::collections::hash_map::Entry;
use std::collections::HashMap;
use vstd::prelude::*;
use vstd::std_specs::hash::*;
use vstd::std_specs::iter::IteratorSpec;

verus! {

broadcast use vstd::std_specs::hash::group_hash_axioms;

/// Proposals keyed by id, with the next id to hand out.
#[derive(Debug)]
pub struct ProposalStore {
    pub proposals: HashMap<u64, Proposal>,
    pub next_id: u64,
}

/// The mathematical value of a [`ProposalStore`].
pub struct StoreView {
    pub proposals: Map<u64, ProposalView>,
    pub next_id: u64,
}

impl View for ProposalStore {
    type V = StoreView;

    open spec fn view(&self) -> StoreView {
        StoreView {
            proposals: Map::new(
                |id: u64| self.proposals@.contains_key(id),
                |id: u64| self.proposals@[id]@,
            ),
            next_id: self.next_id,
        }
    }
}

impl StoreView {
    /// The invariant of the engine's store: it holds finitely many
    /// proposals, every proposal is stored under its own id, the ids in use
    /// are exactly those from 1 up to the next id, and no identity has two
    /// votes on one proposal.
    pub open spec fn inv(self) -> bool {
        &&& self.proposals.dom().finite()
        &&& self.next_id >= 1
        &&& forall|id: u64| 1 <= id < self.next_id <==> #[trigger] self.proposals.contains_key(id)
        &&& forall|id: u64| #[trigger]
            self.proposals.contains_key(id) ==> self.proposals[id].id == id
                && self.proposals[id].wf()
    }
}

/// Each id is smaller than the ones after it.
pub open spec fn ascending(ids: Seq<u64>) -> bool {
    forall|i: int, j: int| 0 <= i < j < ids.len() ==> ids[i] < ids[j]
}

/// Puts `id` into an ascending list that does not hold it, at the place
/// that keeps the list ascending.
fn insert_ascending(ids: &mut Vec<u64>, id: u64)
    requires
        ascending(old(ids)@),
        !old(ids)@.contains(id),
    ensures
        ascending(final(ids)@),
        final(ids)@.to_set() == old(ids)@.to_set().insert(id),
{
    let mut at: usize = 0;
    while at < ids.len() && ids[at] < id
        invariant
            at <= ids.len(),
            *ids == *old(ids),
            forall|k: int| 0 <= k < at ==> ids@[k] < id,
        decreases ids.len() - at,
    {
        at += 1;
    }
    ids.insert(at, id);
    proof {
        let before = old(ids)@;
        let after = ids@;
        assert forall|x: u64| before.to_set().insert(id).contains(x) implies after.contains(
            x,
        ) by {
            if x == id {
                assert(after[at as int] == x);
            } else {
                let k = choose|k: int| 0 <= k < before.len() && before[k] == x;
                if k < at {
                    assert(after[k] == x);
                } else {
                    assert(after[k + 1] == x);
                }
            }
        }
    }
}

impl StoreView {
    /// `ids` holds the ids in use, in ascending order.
    pub open spec fn lists_ids(self, ids: Seq<u64>) -> bool {
        ascending(ids) && ids.to_set() == self.proposals.dom()
    }

    /// `list` holds, place by place, the proposals stored under `ids`.
    pub open spec fn pairs(self, ids: Seq<u64>, list: Seq<ProposalView>) -> bool {
        &&& self.lists_ids(ids)
        &&& list.len() == ids.len()
        &&& forall|i: int| 0 <= i < ids.len() ==> #[trigger] list[i] == self.proposals[ids[i]]
    }

    /// `list` holds every stored proposal once, by ascending id.
    pub open spec fn lists(self, list: Seq<ProposalView>) -> bool {
        exists|ids: Seq<u64>| self.pairs(ids, list)
    }
}

impl ProposalStore {
    /// An empty store whose first id is 1.
    pub fn new() -> (store: Self)
        ensures
            store@.proposals == Map::<u64, ProposalView>::empty(),
            store@.next_id == 1,
            store@.inv(),
    {
        ProposalStore { proposals: HashMap::new(), next_id: 1 }
    }

    /// Hands out the next id. Ids start at 1 and each is one more than the
    /// one before; the proposals are not touched.
    pub fn allocate(&mut self) -> (id: u64)
        requires
            old(self)@.next_id < u64::MAX,
        ensures
            id == old(self)@.next_id,
            final(self)@.next_id == id + 1,
            final(self)@.proposals == old(self)@.proposals,
    {
        let id: u64 = self.next_id;
        self.next_id = id + 1;
        id
    }

    /// Whether a proposal is stored under `id`.
    pub fn contains(&self, id: u64) -> (found: bool)
        ensures
            found == self@.proposals.contains_key(id),
    {
        self.proposals.contains_key(&id)
    }

    /// Stores `proposal` under its id. Fails with `DuplicateId`, changing
    /// nothing, if that id is in use.
    pub fn insert(&mut self, proposal: Proposal) -> (r: Result<(), DaoError>)
        ensures
            old(self)@.proposals.contains_key(proposal.id) ==> r == Err::<(), DaoError>(
                DaoError::DuplicateId,
            ) && *final(self) == *old(self),
            !old(self)@.proposals.contains_key(proposal.id) ==> r == Ok::<(), DaoError>(())
                && final(self)@ == (StoreView {
                proposals: old(self)@.proposals.insert(proposal.id, proposal@),
                ..old(self)@
            }),
    {
        if self.proposals.contains_key(&proposal.id) {
            return Err(DaoError::DuplicateId);
        }
        let ghost before = self@;
        let ghost id: u64 = proposal.id;
        let ghost value = proposal@;
        self.proposals.insert(proposal.id, proposal);
        assert(self@.proposals =~= before.proposals.insert(id, value));
        Ok(())
    }

    /// A copy of the proposal stored under `id`, or `NotFound`.
    pub fn get(&self, id: u64) -> (r: Result<Proposal, DaoError>)
        ensures
            self@.proposals.contains_key(id) ==> r is Ok && r->Ok_0@ == self@.proposals[id],
            !self@.proposals.contains_key(id) ==> r == Err::<Proposal, DaoError>(
                DaoError::NotFound,
            ),
    {
        match self.proposals.get(&id) {
            Some(proposal) => Ok(proposal.clone()),
            None => Err(DaoError::NotFound),
        }
    }

    /// Exclusive access to the proposal stored under `id`, or `NotFound`.
    /// What the caller leaves behind the reference is what the store holds
    /// under `id` afterwards; no other entry and not the id counter changes.
    pub fn get_mut(&mut self, id: u64) -> (r: Result<&mut Proposal, DaoError>)
        ensures
            final(self)@.next_id == old(self)@.next_id,
            old(self)@.proposals.contains_key(id) ==> r is Ok && *r->Ok_0 == old(
                self,
            ).proposals@[id] && final(self)@.proposals == old(self)@.proposals.insert(
                id,
                (*final(r->Ok_0))@,
            ),
            !old(self)@.proposals.contains_key(id) ==> r is Err && r->Err_0 == DaoError::NotFound
                && final(self)@.proposals == old(self)@.proposals,
    {
        match self.proposals.entry(id) {
            Entry::Occupied(entry) => Ok(entry.into_mut()),
            Entry::Vacant(_) => Err(DaoError::NotFound),
        }
    }

    /// The proposal stored under `id`, if there is one.
    pub fn find(&self, id: u64) -> (r: Option<&Proposal>)
        ensures
            self@.proposals.contains_key(id) ==> r is Some && *r->Some_0 == self.proposals@[id],
            !self@.proposals.contains_key(id) ==> r is None,
    {
        self.proposals.get(&id)
    }

    /// The ids in use, in ascending order.
    pub fn ids(&self) -> (ids: Vec<u64>)
        ensures
            self@.lists_ids(ids@),
    {
        let mut ids: Vec<u64> = Vec::new();
        let ghost all = spec_keys_iter(&self.proposals).remaining();
        for id in it: self.proposals.keys()
            invariant
                it.seq() == all,
                all.no_duplicates(),
                ascending(ids@),
                ids@.to_set() == all.take(it.index() as int).unref().to_set(),
        {
            proof {
                let seen = all.take(it.index() as int).unref();
                if seen.contains(*id) {
                    let k = choose|k: int| 0 <= k < seen.len() && seen[k] == *id;
                    assert(all[k] == all[it.index() as int]);
                }
                assert(!ids@.to_set().contains(*id));
                assert(all.take(it.index() + 1).unref() == seen.push(*id));
                assert forall|x: u64| seen.to_set().insert(*id).contains(x) implies seen.push(
                    *id,
                ).contains(x) by {
                    if x == *id {
                        assert(seen.push(*id)[seen.len() as int] == x);
                    } else {
                        let k = choose|k: int| 0 <= k < seen.len() && seen[k] == x;
                        assert(seen.push(*id)[k] == x);
                    }
                }
            }
            insert_ascending(&mut ids, *id);
        }
        assert(all.take(all.len() as int) == all);
        assert(all.unref().to_set() == self@.proposals.dom());
        ids
    }

    /// A copy of every proposal, each once, by ascending id.
    pub fn list_all(&self) -> (list: Vec<Proposal>)
        ensures
            self@.lists(list@.map_values(|p: Proposal| p@)),
    {
        let ids = self.ids();
        let mut list: Vec<Proposal> = Vec::new();
        let mut i: usize = 0;
        while i < ids.len()
            invariant
                i <= ids.len(),
                self@.lists_ids(ids@),
                list@.len() == i,
                forall|k: int| 0 <= k < i ==> (#[trigger] list@[k])@ == self@.proposals[ids@[k]],
            decreases ids.len() - i,
        {
            if let Some(proposal) = self.find(ids[i]) {
                list.push(proposal.clone());
            }
            i += 1;
        }
        assert(self@.pairs(ids@, list@.map_values(|p: Proposal| p@)));
        list
    }
}

} // verus!
