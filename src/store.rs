//! Per-key history, kept in a concurrent map from the `dashmap` crate.

use crate::debounce::KeyRecord;
use dashmap::DashMap;
use vstd::prelude::*;

verus! {

#[verifier::external_type_specification]
#[verifier::external_body]
#[verifier::reject_recursive_types(K)]
#[verifier::reject_recursive_types(V)]
#[verifier::reject_recursive_types(S)]
pub struct ExDashMap<K, V, S>(DashMap<K, V, S>);

/// A map from key code to `(last_event_time, fast_repeat_count)`.
pub type KeyMap = DashMap<u16, (u64, u8)>;

/// What a map of key codes to `(last_event_time, fast_repeat_count)` holds.
pub uninterp spec fn map_contents(m: KeyMap) -> Map<u16, (u64, u8)>;

/// Relies on `DashMap::new`: a new map is empty.
#[verifier::external_body]
fn map_new() -> (r: KeyMap)
    ensures
        map_contents(r).dom().is_empty(),
{
    DashMap::new()
}

/// Relies on `DashMap::get`: the value stored under `k`, copied out.
#[verifier::external_body]
fn map_get(m: &KeyMap, k: u16) -> (r: Option<(u64, u8)>)
    ensures
        map_contents(*m).contains_key(k) ==> r == Some(map_contents(*m)[k]),
        !map_contents(*m).contains_key(k) ==> r.is_none(),
{
    m.get(&k).map(|entry| *entry.value())
}

/// Relies on `DashMap::insert`: `k` now maps to `v`, other keys are kept.
#[verifier::external_body]
fn map_insert(m: &mut KeyMap, k: u16, v: (u64, u8))
    ensures
        map_contents(*final(m)) == map_contents(*old(m)).insert(k, v),
{
    m.insert(k, v);
}

/// Relies on `DashMap::remove`: `k` is gone, other keys are kept.
#[verifier::external_body]
fn map_remove(m: &mut KeyMap, k: u16)
    ensures
        map_contents(*final(m)) == map_contents(*old(m)).remove(k),
{
    m.remove(&k);
}

pub open spec fn record_of(v: (u64, u8)) -> KeyRecord {
    KeyRecord { last_event_time: v.0, fast_repeat_count: v.1 }
}

/// The records of every key seen so far. Writes take `&mut self`, so the
/// records are a function of the store's value; an owner that shares the store
/// between threads puts it behind a lock.
pub struct KeyStore {
    records: KeyMap,
}

impl View for KeyStore {
    type V = Map<u16, KeyRecord>;

    closed spec fn view(&self) -> Map<u16, KeyRecord> {
        map_contents(self.records).map_values(|v: (u64, u8)| record_of(v))
    }
}

impl KeyStore {
    /// A store with no records.
    pub fn new() -> (s: KeyStore)
        ensures
            s@ == Map::<u16, KeyRecord>::empty(),
    {
        let s = KeyStore { records: map_new() };
        assert(s@ =~= Map::<u16, KeyRecord>::empty());
        s
    }

    /// The record of `vk_code`, if there is one.
    pub fn get(&self, vk_code: u16) -> (r: Option<KeyRecord>)
        ensures
            r == (if self@.contains_key(vk_code) {
                Some(self@[vk_code])
            } else {
                None
            }),
    {
        match map_get(&self.records, vk_code) {
            Some(v) => Some(KeyRecord { last_event_time: v.0, fast_repeat_count: v.1 }),
            None => None,
        }
    }

    /// Stores `record` as the record of `vk_code`.
    pub fn upsert(&mut self, vk_code: u16, record: KeyRecord)
        ensures
            final(self)@ == old(self)@.insert(vk_code, record),
    {
        map_insert(&mut self.records, vk_code, (record.last_event_time, record.fast_repeat_count));
        assert(self@ =~= old(self)@.insert(vk_code, record));
    }

    /// Forgets the record of `vk_code`.
    pub fn remove(&mut self, vk_code: u16)
        ensures
            final(self)@ == old(self)@.remove(vk_code),
    {
        map_remove(&mut self.records, vk_code);
        assert(self@ =~= old(self)@.remove(vk_code));
    }
}

} // verus!
