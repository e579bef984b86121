use vstd::prelude::*;
use ic_stable_structures::memory_manager::{MemoryId, MemoryManager, VirtualMemory};
use ic_stable_structures::{DefaultMemoryImpl, StableBTreeMap};

verus! {

/// What the stable-memory key table holds: each stored record key, mapped to
/// the slot number where the record's fields live.
pub uninterp spec fn key_index_contents(m: KeyIndex) -> Map<u64, u64>;

/// The ordered table from record key to slot number: a
/// `StableBTreeMap` of `ic_stable_structures`, laid out in a dedicated
/// region (id 0) of a memory-region allocator over the default memory.
/// The table is created empty at every process start, whatever its
/// memory region held before, and the records' contents never live in
/// that region: they stay in the store's slot vector for the process
/// lifetime.  Verus sees the table only through `key_index_contents`
/// and the wrappers below.
#[verifier::external_body]
pub struct KeyIndex {
    table: StableBTreeMap<u64, u64, VirtualMemory<DefaultMemoryImpl>>,
}

impl KeyIndex {
    /// Relies on `StableBTreeMap::new` of `ic_stable_structures`, which
    /// writes a fresh empty map over the region unconditionally — unlike
    /// `init`, it never loads entries an earlier process left there — and
    /// on `MemoryManager::init` handing out the region.
    #[verifier::external_body]
    pub(crate) fn new() -> (r: KeyIndex)
        ensures
            forall|k: u64| !key_index_contents(r).contains_key(k),
    {
        let manager = MemoryManager::init(DefaultMemoryImpl::default());
        let region = manager.get(MemoryId::new(0));
        KeyIndex { table: StableBTreeMap::new(region) }
    }

    /// Relies on `StableBTreeMap::get` of `ic_stable_structures`: the
    /// value stored under the key, if the key is present.
    #[verifier::external_body]
    pub(crate) fn get(&self, key: u64) -> (r: Option<u64>)
        ensures
            r matches Some(v) ==> key_index_contents(*self).contains_key(key)
                && key_index_contents(*self)[key] == v,
            r is None ==> !key_index_contents(*self).contains_key(key),
    {
        self.table.get(&key)
    }

    /// Relies on `StableBTreeMap::insert` of `ic_stable_structures`: the
    /// value is stored under the key, overwriting and returning any
    /// previous value.  A `u64` key or value is stored as 8 bytes, within
    /// the map's bound, so the call cannot reject it.
    #[verifier::external_body]
    pub(crate) fn insert(&mut self, key: u64, value: u64) -> (prev: Option<u64>)
        ensures
            key_index_contents(*final(self)) == key_index_contents(*old(self)).insert(key, value),
            prev matches Some(v) ==> key_index_contents(*old(self)).contains_key(key)
                && key_index_contents(*old(self))[key] == v,
            prev is None ==> !key_index_contents(*old(self)).contains_key(key),
    {
        self.table.insert(key, value)
    }

    /// Relies on `StableBTreeMap::len` of `ic_stable_structures`: the
    /// number of entries in the map.
    #[verifier::external_body]
    pub(crate) fn len(&self) -> (n: u64)
        ensures
            n == key_index_contents(*self).dom().len(),
    {
        self.table.len()
    }
}

} // verus!
