//! A map from stream ids to the handles of their channels, by the `dashmap` crate.

use crate::frame::Sid;
use dashmap::DashMap;
use std::hash::RandomState;
use vstd::prelude::*;

verus! {

/// `dashmap::DashMap`, as an opaque value. What it holds is named by [`entries`].
#[verifier::external_type_specification]
#[verifier::external_body]
#[verifier::reject_recursive_types(K)]
#[verifier::reject_recursive_types(V)]
#[verifier::reject_recursive_types(S)]
pub struct ExDashMap<K, V, S>(DashMap<K, V, S>);

/// The entries of a map.
pub uninterp spec fn entries(map: DashMap<u32, u64, RandomState>) -> Map<u32, u64>;

/// Calls `dashmap::DashMap::new`. It is trusted that the map has no entries.
#[verifier::external_body]
fn dash_new() -> (res: DashMap<u32, u64, RandomState>)
    ensures
        (entries(res) == Map::<u32, u64>::empty()),
{
    DashMap::new()
}

/// Calls `dashmap::DashMap::contains_key`. It is trusted that it tells whether there is an entry
/// for the key.
#[verifier::external_body]
fn dash_contains_key(map: &DashMap<u32, u64, RandomState>, key: u32) -> (res: bool)
    ensures
        res == entries(*map).contains_key(key),
{
    map.contains_key(&key)
}

/// Calls `dashmap::DashMap::get`, and copies the value out. It is trusted that it finds the value
/// of the key's entry, if there is one.
#[verifier::external_body]
fn dash_get(map: &DashMap<u32, u64, RandomState>, key: u32) -> (res: Option<u64>)
    ensures
        res == if entries(*map).contains_key(key) {
            Some(entries(*map)[key])
        } else {
            None
        },
{
    map.get(&key).map(|entry| *entry.value())
}

/// Calls `dashmap::DashMap::insert`. It is trusted that it sets the key's entry, leaves the others
/// alone, and returns the value of the entry that it replaced, if there was one.
#[verifier::external_body]
fn dash_insert(map: &mut DashMap<u32, u64, RandomState>, key: u32, value: u64) -> (res: Option<u64>)
    ensures
        entries(*final(map)) == entries(*old(map)).insert(key, value),
        res == if entries(*old(map)).contains_key(key) {
            Some(entries(*old(map))[key])
        } else {
            None
        },
{
    map.insert(key, value)
}

/// Calls `dashmap::DashMap::remove`. It is trusted that it removes the key's entry, leaves the
/// others alone, and returns the entry, if there was one.
#[verifier::external_body]
fn dash_remove(map: &mut DashMap<u32, u64, RandomState>, key: u32) -> (res: Option<(u32, u64)>)
    ensures
        entries(*final(map)) == entries(*old(map)).remove(key),
        res == if entries(*old(map)).contains_key(key) {
            Some((key, entries(*old(map))[key]))
        } else {
            None
        },
{
    map.remove(&key)
}

/// A map from stream ids to channel handles. It is the only owner of the map inside, and hands
/// out no reference to it, so nobody else changes its entries.
pub struct SidMap {
    map: DashMap<u32, u64, RandomState>,
}

impl View for SidMap {
    type V = Map<Sid, u64>;

    closed spec fn view(&self) -> Map<Sid, u64> {
        entries(self.map)
    }
}

impl SidMap {
    /// A map without entries.
    pub fn new() -> (res: SidMap)
        ensures
            res@ == Map::<Sid, u64>::empty(),
    {
        SidMap { map: dash_new() }
    }

    /// Whether there is an entry for `sid`.
    pub fn contains_key(&self, sid: Sid) -> (res: bool)
        ensures
            res == self@.contains_key(sid),
    {
        dash_contains_key(&self.map, sid)
    }

    /// The channel of `sid`, if there is an entry for it.
    pub fn get(&self, sid: Sid) -> (res: Option<u64>)
        ensures
            res == if self@.contains_key(sid) {
                Some(self@[sid])
            } else {
                None
            },
    {
        dash_get(&self.map, sid)
    }

    /// Sets the channel of `sid`, and returns the one that it replaces, if there was one.
    pub fn insert(&mut self, sid: Sid, channel: u64) -> (res: Option<u64>)
        ensures
            final(self)@ == old(self)@.insert(sid, channel),
            res == if old(self)@.contains_key(sid) {
                Some(old(self)@[sid])
            } else {
                None
            },
    {
        dash_insert(&mut self.map, sid, channel)
    }

    /// Removes the entry of `sid`, and returns its channel, if there was one.
    pub fn remove(&mut self, sid: Sid) -> (res: Option<u64>)
        ensures
            final(self)@ == old(self)@.remove(sid),
            res == if old(self)@.contains_key(sid) {
                Some(old(self)@[sid])
            } else {
                None
            },
    {
        match dash_remove(&mut self.map, sid) {
            Some((_, channel)) => Some(channel),
            None => None,
        }
    }
}

} // verus!
