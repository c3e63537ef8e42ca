//! The typed accessor over a kernel hash map declaration.
//!
//! The kernel helpers are reached through raw addresses, which the caller
//! dereferences at the kernel boundary; each accessor here takes what its
//! helper returned and turns it into a typed outcome.
use vstd::prelude::*;

use core::marker::PhantomData;

verus! {

/// The kernel's map kind for a hash table.
pub const BPF_MAP_TYPE_HASH: u32 = 1;

/// What the lookup helper's returned address means: null (zero) is a key that
/// is absent, anything else the address of the value.
pub open spec fn lookup_result(raw: usize) -> Option<usize> {
    if raw == 0 {
        None
    } else {
        Some(raw)
    }
}

/// What a helper's status means: zero is success, any other status is
/// handed back unchanged.
pub open spec fn status_result(ret: i64) -> Result<(), i64> {
    if ret == 0 {
        Ok(())
    } else {
        Err(ret)
    }
}

/// A hash map declaration with keys `K`, values `V`, capacity `M` and flags `F`.
pub struct HashMap<K, V, const M: usize, const F: usize> {
    map_type: u32,
    max_entries: usize,
    map_flags: usize,
    key: PhantomData<K>,
    value: PhantomData<V>,
}

impl<K, V, const M: usize, const F: usize> HashMap<K, V, M, F> {
    pub closed spec fn spec_map_type(&self) -> u32 {
        self.map_type
    }

    pub closed spec fn spec_max_entries(&self) -> usize {
        self.max_entries
    }

    pub closed spec fn spec_map_flags(&self) -> usize {
        self.map_flags
    }

    /// The declaration carries the hash kind, its capacity and its flags.
    pub open spec fn wf(&self) -> bool {
        &&& self.spec_map_type() == BPF_MAP_TYPE_HASH
        &&& self.spec_max_entries() == M
        &&& self.spec_map_flags() == F
    }

    pub fn new() -> (r: Self)
        ensures
            r.wf(),
    {
        HashMap {
            map_type: BPF_MAP_TYPE_HASH,
            max_entries: M,
            map_flags: F,
            key: PhantomData,
            value: PhantomData,
        }
    }

    pub fn map_type(&self) -> (r: u32)
        ensures
            r == self.spec_map_type(),
    {
        self.map_type
    }

    pub fn max_entries(&self) -> (r: usize)
        ensures
            r == self.spec_max_entries(),
    {
        self.max_entries
    }

    pub fn map_flags(&self) -> (r: usize)
        ensures
            r == self.spec_map_flags(),
    {
        self.map_flags
    }

    /// The value for `key` as a read-only address, given the address `raw`
    /// that the lookup helper returned for this map and `key`.
    pub fn get_ptr(&mut self, key: &K, raw: usize) -> (r: Option<usize>)
        ensures
            *final(self) == *old(self),
            r == lookup_result(raw),
    {
        get_ptr(raw)
    }

    /// The value for `key` as a writable address, given the address `raw`
    /// that the lookup helper returned for this map and `key`.
    pub fn get_ptr_mut(&mut self, key: &K, raw: usize) -> (r: Option<usize>)
        ensures
            *final(self) == *old(self),
            r == lookup_result(raw),
    {
        get_ptr_mut(raw)
    }

    /// The outcome of storing `value` under `key` with `flags`, given the
    /// status `ret` that the update helper returned for them.
    pub fn insert(&mut self, key: &K, value: &V, flags: u64, ret: i64) -> (r: Result<(), i64>)
        ensures
            *final(self) == *old(self),
            r == status_result(ret),
    {
        insert(ret)
    }

    /// The outcome of removing `key`, given the status `ret` that the delete
    /// helper returned for it.
    pub fn remove(&mut self, key: &K, ret: i64) -> (r: Result<(), i64>)
        ensures
            *final(self) == *old(self),
            r == status_result(ret),
    {
        remove(ret)
    }
}

/// A lookup helper's address as a writable value address.
pub fn get_ptr_mut(raw: usize) -> (r: Option<usize>)
    ensures
        r == lookup_result(raw),
{
    if raw == 0 {
        None
    } else {
        Some(raw)
    }
}

/// A lookup helper's address as a read-only value address.
pub fn get_ptr(raw: usize) -> (r: Option<usize>)
    ensures
        r == lookup_result(raw),
{
    get_ptr_mut(raw)
}

/// An update helper's status as an outcome.
pub fn insert(ret: i64) -> (r: Result<(), i64>)
    ensures
        r == status_result(ret),
{
    if ret == 0 {
        Ok(())
    } else {
        Err(ret)
    }
}

/// A delete helper's status as an outcome.
pub fn remove(ret: i64) -> (r: Result<(), i64>)
    ensures
        r == status_result(ret),
{
    if ret == 0 {
        Ok(())
    } else {
        Err(ret)
    }
}

} // verus!
