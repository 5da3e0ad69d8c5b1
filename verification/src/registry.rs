//! The registry of live escrows: at most one escrow per identifier, listed
//! in ascending order of the identifiers.

use crate::error::ContractError;
use crate::order::{ascending, id_before, law_id_order, precedes};
use crate::state::{Escrow, EscrowView};
use vstd::prelude::*;

verus! {

/// One live escrow under its identifier.
struct Slot {
    id: String,
    escrow: Escrow,
}

/// The live escrows, each under its identifier.
pub struct EscrowRegistry {
    slots: Vec<Slot>,
}

/// The identifiers of `slots`, slot by slot.
spec fn slot_ids(slots: Seq<Slot>) -> Seq<Seq<char>> {
    Seq::new(slots.len(), |i: int| slots[i].id@)
}

/// Whether some slot of `slots` has the identifier `id`.
spec fn has_slot(slots: Seq<Slot>, id: Seq<char>) -> bool {
    exists|i: int| 0 <= i < slots.len() && (#[trigger] slots[i]).id@ == id
}

/// The index of a slot of `slots` with the identifier `id`.
spec fn slot_of(slots: Seq<Slot>, id: Seq<char>) -> int {
    choose|i: int| 0 <= i < slots.len() && (#[trigger] slots[i]).id@ == id
}

/// The escrows of `slots` by identifier.
spec fn slots_map(slots: Seq<Slot>) -> Map<Seq<char>, EscrowView> {
    Map::new(|id: Seq<char>| has_slot(slots, id), |id: Seq<char>| slots[slot_of(slots, id)].escrow@)
}

/// In ascending slots the slot of an identifier is the only one that has it.
proof fn lemma_slot_unique(slots: Seq<Slot>, at: int)
    requires
        ascending(slot_ids(slots)),
        0 <= at < slots.len(),
    ensures
        has_slot(slots, slots[at].id@),
        slot_of(slots, slots[at].id@) == at,
{
    let id = slots[at].id@;
    let found = slot_of(slots, id);
    law_id_order(id, id, id);
    if found < at {
        assert(id_before(slot_ids(slots)[found], slot_ids(slots)[at]));
    } else if at < found {
        assert(id_before(slot_ids(slots)[at], slot_ids(slots)[found]));
    }
}

/// Putting a new identifier between the slots that come before it and those
/// that come after it keeps the slots ascending and adds one entry to the
/// map.
proof fn lemma_insert_slot(slots: Seq<Slot>, at: int, slot: Slot)
    requires
        ascending(slot_ids(slots)),
        0 <= at <= slots.len(),
        forall|i: int| 0 <= i < at ==> id_before((#[trigger] slots[i]).id@, slot.id@),
        at < slots.len() ==> id_before(slot.id@, slots[at].id@),
    ensures
        ascending(slot_ids(slots.insert(at, slot))),
        slots_map(slots.insert(at, slot)) == slots_map(slots).insert(slot.id@, slot.escrow@),
        !has_slot(slots, slot.id@),
{
    let after = slots.insert(at, slot);
    assert forall|j: int| at <= j < slots.len() implies id_before(
        slot.id@,
        (#[trigger] slots[j]).id@,
    ) by {
        if at < j {
            assert(id_before(slot_ids(slots)[at], slot_ids(slots)[j]));
            law_id_order(slot.id@, slots[at].id@, slots[j].id@);
        }
    }
    assert forall|i: int, j: int| 0 <= i < j < after.len() implies id_before(
        #[trigger] slot_ids(after)[i],
        #[trigger] slot_ids(after)[j],
    ) by {
        let a = if i < at { i } else { i - 1 };
        let b = if j < at { j } else { j - 1 };
        if i != at && j != at {
            assert(id_before(slot_ids(slots)[a], slot_ids(slots)[b]));
        }
    }
    if has_slot(slots, slot.id@) {
        law_id_order(slot.id@, slot.id@, slot.id@);
    }
    assert forall|id: Seq<char>| has_slot(after, id) <==> (id == slot.id@ || has_slot(
        slots,
        id,
    )) by {
        if has_slot(after, id) {
            let k = slot_of(after, id);
            if k < at {
                assert(slots[k].id@ == id);
            } else if k > at {
                assert(slots[k - 1].id@ == id);
            }
        }
        if id == slot.id@ {
            assert(after[at].id@ == id);
        }
        if has_slot(slots, id) {
            let k = slot_of(slots, id);
            if k < at {
                assert(after[k].id@ == id);
            } else {
                assert(after[k + 1].id@ == id);
            }
        }
    }
    assert forall|id: Seq<char>| has_slot(after, id) implies #[trigger] slots_map(after)[id]
        == slots_map(slots).insert(slot.id@, slot.escrow@)[id] by {
        let k = slot_of(after, id);
        lemma_slot_unique(after, k);
        if k < at {
            lemma_slot_unique(slots, k);
        } else if k > at {
            lemma_slot_unique(slots, k - 1);
        }
    }
    assert(slots_map(after) =~= slots_map(slots).insert(slot.id@, slot.escrow@));
}

/// Taking a slot out keeps the slots ascending and takes its entry off the
/// map.
proof fn lemma_remove_slot(slots: Seq<Slot>, at: int)
    requires
        ascending(slot_ids(slots)),
        0 <= at < slots.len(),
    ensures
        ascending(slot_ids(slots.remove(at))),
        slots_map(slots.remove(at)) == slots_map(slots).remove(slots[at].id@),
{
    let after = slots.remove(at);
    let gone = slots[at].id@;
    assert forall|i: int, j: int| 0 <= i < j < after.len() implies id_before(
        #[trigger] slot_ids(after)[i],
        #[trigger] slot_ids(after)[j],
    ) by {
        let a = if i < at { i } else { i + 1 };
        let b = if j < at { j } else { j + 1 };
        assert(id_before(slot_ids(slots)[a], slot_ids(slots)[b]));
    }
    lemma_slot_unique(slots, at);
    assert forall|id: Seq<char>| has_slot(after, id) <==> (id != gone && has_slot(slots, id)) by {
        if has_slot(after, id) {
            let k = slot_of(after, id);
            let a = if k < at { k } else { k + 1 };
            assert(slots[a].id@ == id);
            lemma_slot_unique(slots, a);
        }
        if id != gone && has_slot(slots, id) {
            let k = slot_of(slots, id);
            if k < at {
                assert(after[k].id@ == id);
            } else {
                assert(after[k - 1].id@ == id);
            }
        }
    }
    assert forall|id: Seq<char>| has_slot(after, id) implies #[trigger] slots_map(after)[id]
        == slots_map(slots)[id] by {
        let k = slot_of(after, id);
        lemma_slot_unique(after, k);
        let a = if k < at { k } else { k + 1 };
        lemma_slot_unique(slots, a);
    }
    assert(slots_map(after) =~= slots_map(slots).remove(gone));
}

/// Replacing the escrow of a slot keeps the slots ascending and replaces
/// its entry in the map.
proof fn lemma_replace_slot(slots: Seq<Slot>, at: int, slot: Slot)
    requires
        ascending(slot_ids(slots)),
        0 <= at < slots.len(),
        slot.id@ == slots[at].id@,
    ensures
        ascending(slot_ids(slots.update(at, slot))),
        slots_map(slots.update(at, slot)) == slots_map(slots).insert(slot.id@, slot.escrow@),
{
    let after = slots.update(at, slot);
    assert(slot_ids(after) =~= slot_ids(slots));
    assert forall|id: Seq<char>| has_slot(after, id) <==> has_slot(slots, id) by {
        if has_slot(after, id) {
            let k = slot_of(after, id);
            assert(slots[k].id@ == id);
        }
        if has_slot(slots, id) {
            let k = slot_of(slots, id);
            assert(after[k].id@ == id);
        }
    }
    lemma_slot_unique(slots, at);
    assert forall|id: Seq<char>| has_slot(after, id) implies #[trigger] slots_map(after)[id]
        == slots_map(slots).insert(slot.id@, slot.escrow@)[id] by {
        let k = slot_of(after, id);
        lemma_slot_unique(after, k);
        lemma_slot_unique(slots, k);
    }
    assert(slots_map(after) =~= slots_map(slots).insert(slot.id@, slot.escrow@));
}

/// Ascending slots hold as many identifiers as there are slots.
proof fn lemma_slots_count(slots: Seq<Slot>)
    requires
        ascending(slot_ids(slots)),
    ensures
        slots_map(slots).dom().finite(),
        slots_map(slots).dom().len() == slots.len(),
    decreases slots.len(),
{
    if slots.len() == 0 {
        assert(slots_map(slots).dom() =~= Set::<Seq<char>>::empty());
    } else {
        let at = slots.len() - 1;
        let front = slots.remove(at);
        lemma_remove_slot(slots, at);
        lemma_slots_count(front);
        lemma_slot_unique(slots, at);
        assert(slots_map(slots).dom() =~= slots_map(front).dom().insert(slots[at].id@));
    }
}

impl View for EscrowRegistry {
    type V = Map<Seq<char>, EscrowView>;

    closed spec fn view(&self) -> Map<Seq<char>, EscrowView> {
        slots_map(self.slots@)
    }
}

impl EscrowRegistry {
    #[verifier::type_invariant]
    spec fn ordered(self) -> bool {
        ascending(slot_ids(self.slots@))
    }

    /// A registry without escrows.
    pub fn new() -> (registry: EscrowRegistry)
        ensures
            registry@ == Map::<Seq<char>, EscrowView>::empty(),
    {
        let registry = EscrowRegistry { slots: Vec::new() };
        assert(registry@ =~= Map::<Seq<char>, EscrowView>::empty());
        registry
    }

    /// The index of the slot with the identifier `id`, where there is one.
    fn find(&self, id: &String) -> (at: Option<usize>)
        ensures
            at is Some <==> self@.contains_key(id@),
            at matches Some(i) ==> i < self.slots.len() && self.slots[i as int].id@ == id@
                && self@[id@] == self.slots[i as int].escrow@,
    {
        proof {
            use_type_invariant(self);
        }
        let mut i: usize = 0;
        while i < self.slots.len()
            invariant
                i <= self.slots.len(),
                ascending(slot_ids(self.slots@)),
                forall|k: int| 0 <= k < i ==> (#[trigger] self.slots[k]).id@ != id@,
            decreases self.slots.len() - i,
        {
            if self.slots[i].id == *id {
                proof {
                    lemma_slot_unique(self.slots@, i as int);
                }
                return Some(i);
            }
            i += 1;
        }
        None
    }

    /// Where a slot for the new identifier `id` belongs: behind every slot
    /// that comes before it.
    fn place_for(&self, id: &String) -> (at: usize)
        requires
            !self@.contains_key(id@),
        ensures
            at <= self.slots.len(),
            forall|i: int| 0 <= i < at ==> id_before((#[trigger] self.slots[i]).id@, id@),
            at < self.slots.len() ==> id_before(id@, self.slots[at as int].id@),
    {
        let mut at: usize = 0;
        while at < self.slots.len()
            invariant
                at <= self.slots.len(),
                !has_slot(self.slots@, id@),
                forall|i: int| 0 <= i < at ==> id_before((#[trigger] self.slots[i]).id@, id@),
            decreases self.slots.len() - at,
        {
            if !precedes(self.slots[at].id.as_str(), id.as_str()) {
                proof {
                    let other = self.slots[at as int].id@;
                    law_id_order(id@, other, id@);
                }
                return at;
            }
            at += 1;
        }
        at
    }

    /// Whether an escrow is live under `id`.
    pub fn has(&self, id: &String) -> (live: bool)
        ensures
            live == self@.contains_key(id@),
    {
        self.find(id).is_some()
    }

    /// Puts `record` under `id` if no escrow is live there; a live escrow is
    /// never overwritten.
    pub fn create(&mut self, id: String, record: Escrow) -> (done: Result<(), ContractError>)
        ensures
            done is Ok <==> !old(self)@.contains_key(id@),
            done is Ok ==> final(self)@ == old(self)@.insert(id@, record@),
            done is Err ==> done == Err::<(), ContractError>(ContractError::AlreadyInUse),
            done is Err ==> final(self)@ == old(self)@,
    {
        match self.find(&id) {
            Some(_) => Err(ContractError::AlreadyInUse),
            None => {
                self.put_new(id, record);
                Ok(())
            },
        }
    }

    /// Puts `record` under the identifier `id`, which is not live.
    fn put_new(&mut self, id: String, record: Escrow)
        requires
            !old(self)@.contains_key(id@),
        ensures
            final(self)@ == old(self)@.insert(id@, record@),
    {
        proof {
            use_type_invariant(&*self);
        }
        let at = self.place_for(&id);
        let slot = Slot { id, escrow: record };
        let mut slots: Vec<Slot> = Vec::new();
        std::mem::swap(&mut slots, &mut self.slots);
        proof {
            lemma_insert_slot(slots@, at as int, slot);
        }
        slots.insert(at, slot);
        self.slots = slots;
    }

    /// A copy of the escrow that is live under `id`.
    pub fn load(&self, id: &String) -> (found: Result<Escrow, ContractError>)
        ensures
            found is Ok <==> self@.contains_key(id@),
            found matches Ok(record) ==> record@ == self@[id@],
            found matches Err(e) ==> e == ContractError::NotFound,
    {
        match self.find(id) {
            Some(at) => Ok(self.slots[at].escrow.clone()),
            None => Err(ContractError::NotFound),
        }
    }

    /// Puts `record` under `id`, in place of the escrow that is live there
    /// if there is one.
    pub fn save(&mut self, id: String, record: Escrow)
        ensures
            final(self)@ == old(self)@.insert(id@, record@),
    {
        proof {
            use_type_invariant(&*self);
        }
        match self.find(&id) {
            Some(at) => {
                let slot = Slot { id, escrow: record };
                let mut slots: Vec<Slot> = Vec::new();
                std::mem::swap(&mut slots, &mut self.slots);
                proof {
                    lemma_replace_slot(slots@, at as int, slot);
                }
                slots.set(at, slot);
                self.slots = slots;
            },
            None => {
                self.put_new(id, record);
            },
        }
    }

    /// Takes the escrow under `id` out of the registry; nothing changes
    /// where none is live there.
    pub fn remove(&mut self, id: &String)
        ensures
            final(self)@ == old(self)@.remove(id@),
    {
        proof {
            use_type_invariant(&*self);
        }
        match self.find(id) {
            Some(at) => {
                let mut slots: Vec<Slot> = Vec::new();
                std::mem::swap(&mut slots, &mut self.slots);
                proof {
                    lemma_remove_slot(slots@, at as int);
                }
                let _ = slots.remove(at);
                self.slots = slots;
            },
            None => {
                assert(self@.remove(id@) =~= self@);
            },
        }
    }

    /// The identifiers of all live escrows, each once, in ascending order.
    pub fn list_ids(&self) -> (ids: Vec<String>)
        ensures
            ascending(ids.deep_view()),
            forall|id: Seq<char>| ids.deep_view().contains(id) <==> self@.contains_key(id),
            ids.len() == self@.dom().len(),
    {
        proof {
            use_type_invariant(self);
            lemma_slots_count(self.slots@);
        }
        let mut ids: Vec<String> = Vec::new();
        let mut i: usize = 0;
        while i < self.slots.len()
            invariant
                i <= self.slots.len(),
                ids.len() == i,
                forall|k: int| 0 <= k < i ==> (#[trigger] ids[k])@ == self.slots[k].id@,
            decreases self.slots.len() - i,
        {
            ids.push(self.slots[i].id.clone());
            i += 1;
        }
        proof {
            assert(ids.deep_view() =~= slot_ids(self.slots@));
            assert forall|id: Seq<char>| ids.deep_view().contains(id) <==> self@.contains_key(
                id,
            ) by {
                if ids.deep_view().contains(id) {
                    let k = choose|k: int| 0 <= k < ids.deep_view().len() && ids.deep_view()[k] == id;
                    assert(self.slots@[k].id@ == id);
                }
                if self@.contains_key(id) {
                    let k = slot_of(self.slots@, id);
                    assert(ids.deep_view()[k] == id);
                }
            }
        }
        ids
    }
}

/// The identifiers of all live escrows of `registry`, each once, in
/// ascending order.
pub fn all_escrow_ids(registry: &EscrowRegistry) -> (ids: Vec<String>)
    ensures
        ascending(ids.deep_view()),
        forall|id: Seq<char>| ids.deep_view().contains(id) <==> registry@.contains_key(id),
        ids.len() == registry@.dom().len(),
{
    registry.list_ids()
}

} // verus!
