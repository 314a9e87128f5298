//! The swap registry: one record per swap identifier.

use crate::bytes::same_bytes;
use crate::error::HtlcError;
use crate::swap::{DataKey, HTLCSwap, SwapView};
use vstd::prelude::*;

verus! {

struct Entry {
    key: DataKey,
    swap: HTLCSwap,
}

/// A keyed store of swap records. Its view is the map from swap identifier
/// to record. Nothing is ever removed from it.
pub struct SwapRegistry {
    entries: Vec<Entry>,
}

impl View for SwapRegistry {
    type V = Map<Seq<u8>, SwapView>;

    closed spec fn view(&self) -> Map<Seq<u8>, SwapView> {
        Map::new(|id: Seq<u8>| self.files(id), |id: Seq<u8>| self.entries[self.slot(id)].swap@)
    }
}

impl SwapRegistry {
    /// Some entry is filed under `id`.
    spec fn files(&self, id: Seq<u8>) -> bool {
        exists|i: int| 0 <= i < self.entries.len() && #[trigger] self.entries[i].key@ == id
    }

    /// The position of an entry filed under `id`.
    spec fn slot(&self, id: Seq<u8>) -> int {
        choose|i: int| 0 <= i < self.entries.len() && #[trigger] self.entries[i].key@ == id
    }

    /// No identifier is filed twice.
    #[verifier::type_invariant]
    spec fn unique(self) -> bool {
        forall|i: int, j: int|
            0 <= i < j < self.entries.len() ==> #[trigger] self.entries[i].key@
                != #[trigger] self.entries[j].key@
    }

    /// With unique keys, the view maps each entry's key to that entry's swap.
    proof fn lemma_entry(&self, i: int)
        requires
            self.unique(),
            0 <= i < self.entries.len(),
        ensures
            self@.contains_key(self.entries[i].key@),
            self@[self.entries[i].key@] == self.entries[i].swap@,
    {
        let id = self.entries[i].key@;
        assert(self.files(id));
        let j = self.slot(id);
        assert(0 <= j < self.entries.len() && self.entries[j].key@ == id);
        assert(i == j);
    }

    /// An empty registry.
    pub fn new() -> (registry: SwapRegistry)
        ensures
            registry@ == Map::<Seq<u8>, SwapView>::empty(),
    {
        let registry = SwapRegistry { entries: Vec::new() };
        assert(registry@ =~= Map::<Seq<u8>, SwapView>::empty());
        registry
    }

    /// Where `id` is filed, if anywhere.
    fn find(&self, id: &[u8]) -> (found: Option<usize>)
        ensures
            match found {
                Some(i) => i < self.entries.len() && self.entries[i as int].key@ == id@,
                None => !self.files(id@),
            },
    {
        let mut i: usize = 0;
        while i < self.entries.len()
            invariant
                i <= self.entries.len(),
                forall|j: int| 0 <= j < i ==> #[trigger] self.entries[j].key@ != id@,
            decreases self.entries.len() - i,
        {
            if same_bytes(self.entries[i].key.swap_id(), id) {
                return Some(i);
            }
            i += 1;
        }
        None
    }

    /// Whether a record is filed under `key`.
    pub fn has(&self, key: &DataKey) -> (present: bool)
        ensures
            present == self@.contains_key(key@),
    {
        self.find(key.swap_id()).is_some()
    }

    /// The record filed under `key`, if there is one.
    pub fn get(&self, key: &DataKey) -> (record: Option<&HTLCSwap>)
        ensures
            match record {
                Some(swap) => self@.contains_key(key@) && swap@ == self@[key@],
                None => !self@.contains_key(key@),
            },
    {
        match self.find(key.swap_id()) {
            Some(i) => {
                proof {
                    use_type_invariant(self);
                    self.lemma_entry(i as int);
                }
                Some(&self.entries[i].swap)
            },
            None => None,
        }
    }

    /// Files a new record. An identifier that is already taken is refused,
    /// whatever the record says, and the record on file stays.
    pub fn put(&mut self, key: DataKey, swap: HTLCSwap) -> (outcome: Result<(), HtlcError>)
        ensures
            old(self)@.contains_key(key@) ==> outcome == Err::<(), HtlcError>(
                HtlcError::DuplicateSwapId,
            ) && final(self)@ == old(self)@,
            !old(self)@.contains_key(key@) ==> outcome == Ok::<(), HtlcError>(()) && final(self)@
                == old(self)@.insert(key@, swap@),
    {
        if self.find(key.swap_id()).is_some() {
            return Err(HtlcError::DuplicateSwapId);
        }
        proof {
            use_type_invariant(&*self);
        }
        let ghost before = *self;
        let mut entries = Vec::new();
        std::mem::swap(&mut entries, &mut self.entries);
        entries.push(Entry { key, swap });
        self.entries = entries;
        proof {
            let after = *self;
            let last = before.entries.len() as int;
            assert(after.unique());
            assert forall|id: Seq<u8>| after.files(id) <==> (before.files(id) || id == key@) by {
                if before.files(id) {
                    let i = before.slot(id);
                    assert(after.entries[i].key@ == id);
                }
                if id == key@ {
                    assert(after.entries[last].key@ == id);
                }
            }
            assert forall|id: Seq<u8>| after.files(id) implies after@[id] == before@.insert(
                key@,
                swap@,
            )[id] by {
                if id == key@ {
                    after.lemma_entry(last);
                } else {
                    let i = before.slot(id);
                    before.lemma_entry(i);
                    after.lemma_entry(i);
                }
            }
            assert(after@ =~= before@.insert(key@, swap@));
        }
        Ok(())
    }

    /// Overwrites the record filed under `key`. Only a record that exists can
    /// be replaced.
    pub fn replace(&mut self, key: DataKey, swap: HTLCSwap) -> (outcome: Result<(), HtlcError>)
        ensures
            !old(self)@.contains_key(key@) ==> outcome == Err::<(), HtlcError>(
                HtlcError::SwapNotFound,
            ) && final(self)@ == old(self)@,
            old(self)@.contains_key(key@) ==> outcome == Ok::<(), HtlcError>(()) && final(self)@
                == old(self)@.insert(key@, swap@),
    {
        match self.find(key.swap_id()) {
            None => Err(HtlcError::SwapNotFound),
            Some(at) => {
                proof {
                    use_type_invariant(&*self);
                }
                let ghost before = *self;
                let mut entries = Vec::new();
                std::mem::swap(&mut entries, &mut self.entries);
                entries.set(at, Entry { key, swap });
                self.entries = entries;
                proof {
                    let after = *self;
                    assert forall|i: int| 0 <= i < after.entries.len() implies (
                    #[trigger] after.entries[i]).key@ == before.entries[i].key@ by {}
                    assert(after.unique());
                    assert forall|id: Seq<u8>| after.files(id) <==> before.files(id) by {
                        if before.files(id) {
                            let i = before.slot(id);
                            assert(after.entries[i].key@ == id);
                        }
                        if after.files(id) {
                            let i = after.slot(id);
                            assert(before.entries[i].key@ == id);
                        }
                    }
                    assert forall|id: Seq<u8>| after.files(id) implies after@[id] == before@.insert(
                        key@,
                        swap@,
                    )[id] by {
                        let i = before.slot(id);
                        before.lemma_entry(i);
                        after.lemma_entry(i);
                    }
                    assert(after@ =~= before@.insert(key@, swap@));
                }
                Ok(())
            },
        }
    }
}

} // verus!
