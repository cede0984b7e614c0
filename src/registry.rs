use vstd::prelude::*;
use dashmap::DashMap;

verus! {

#[verifier::external_type_specification]
#[verifier::external_body]
#[verifier::reject_recursive_types(K)]
#[verifier::reject_recursive_types(V)]
#[verifier::reject_recursive_types(S)]
pub struct ExDashMap<K, V, S>(DashMap<K, V, S>);

/// The entries of a registry map: each online user's key, mapped to the number
/// of the connection that serves it.
pub uninterp spec fn online_entries(m: DashMap<u128, u64>) -> Map<u128, u64>;

/// Relies on `DashMap::new`: a new map holds no entry.
#[verifier::external_body]
fn new_map() -> (r: DashMap<u128, u64>)
    ensures
        forall|k: u128| !online_entries(r).contains_key(k),
{
    DashMap::new()
}

/// Relies on `DashMap::insert`: afterwards the key maps to the value and other
/// keys keep theirs; the value that the key had before is returned.
#[verifier::external_body]
fn map_insert(m: &mut DashMap<u128, u64>, key: u128, value: u64) -> (r: Option<u64>)
    ensures
        online_entries(*final(m)) == online_entries(*old(m)).insert(key, value),
        r == (if online_entries(*old(m)).contains_key(key) {
            Some(online_entries(*old(m))[key])
        } else {
            None::<u64>
        }),
{
    m.insert(key, value)
}

/// Relies on `DashMap::remove`: afterwards the key is absent and other keys
/// keep theirs; the value that the key had is returned.
#[verifier::external_body]
fn map_remove(m: &mut DashMap<u128, u64>, key: u128) -> (r: Option<u64>)
    ensures
        online_entries(*final(m)) == online_entries(*old(m)).remove(key),
        r == (if online_entries(*old(m)).contains_key(key) {
            Some(online_entries(*old(m))[key])
        } else {
            None::<u64>
        }),
{
    m.remove(&key).map(|entry| entry.1)
}

/// Relies on `DashMap::get`: the value under the key, if there is one.
#[verifier::external_body]
fn map_get(m: &DashMap<u128, u64>, key: u128) -> (r: Option<u64>)
    ensures
        r == (if online_entries(*m).contains_key(key) {
            Some(online_entries(*m)[key])
        } else {
            None::<u64>
        }),
{
    m.get(&key).map(|entry| *entry.value())
}

/// Relies on `DashMap::len`: the number of entries.
#[verifier::external_body]
fn map_len(m: &DashMap<u128, u64>) -> (r: usize)
    ensures
        r == online_entries(*m).len(),
{
    m.len()
}

/// Relies on `DashMap::iter`: every entry exactly once, in no stated order.
#[verifier::external_body]
fn map_entries(m: &DashMap<u128, u64>) -> (r: Vec<(u128, u64)>)
    ensures
        forall|i: int|
            0 <= i < r@.len() ==> online_entries(*m).contains_key(#[trigger] r@[i].0)
                && online_entries(*m)[r@[i].0] == r@[i].1,
        forall|i: int, j: int| 0 <= i < j < r@.len() ==> r@[i].0 != r@[j].0,
        forall|k: u128|
            online_entries(*m).contains_key(k) ==> exists|i: int|
                0 <= i < r@.len() && (#[trigger] r@[i]).0 == k,
{
    m.iter().map(|entry| (*entry.key(), *entry.value())).collect()
}

/// The connection registry: for each online user, the connection that serves it.
pub struct Registry {
    map: DashMap<u128, u64>,
}

impl Registry {
    /// The registry as a map from a user's key to its connection's number.
    pub closed spec fn view(&self) -> Map<u128, u64> {
        online_entries(self.map)
    }

    pub fn new() -> (r: Registry)
        ensures
            forall|k: u128| !r@.contains_key(k),
    {
        Registry { map: new_map() }
    }

    /// Enters `conn` under `user`, replacing what was there, which is returned.
    pub fn insert(&mut self, user: u128, conn: u64) -> (r: Option<u64>)
        ensures
            final(self)@ == old(self)@.insert(user, conn),
            r == (if old(self)@.contains_key(user) { Some(old(self)@[user]) } else { None::<u64> }),
    {
        map_insert(&mut self.map, user, conn)
    }

    /// Takes `user` out, if it is there; no effect otherwise.
    pub fn remove(&mut self, user: u128) -> (r: Option<u64>)
        ensures
            final(self)@ == old(self)@.remove(user),
            r == (if old(self)@.contains_key(user) { Some(old(self)@[user]) } else { None::<u64> }),
    {
        map_remove(&mut self.map, user)
    }

    pub fn get(&self, user: u128) -> (r: Option<u64>)
        ensures
            r == (if self@.contains_key(user) { Some(self@[user]) } else { None::<u64> }),
    {
        map_get(&self.map, user)
    }

    /// How many users are online.
    pub fn len(&self) -> (r: usize)
        ensures
            r == self@.len(),
    {
        map_len(&self.map)
    }

    /// Every entry once, in no particular order.
    pub fn snapshot(&self) -> (r: Vec<(u128, u64)>)
        ensures
            forall|i: int|
                0 <= i < r@.len() ==> self@.contains_key(#[trigger] r@[i].0) && self@[r@[i].0]
                    == r@[i].1,
            forall|i: int, j: int| 0 <= i < j < r@.len() ==> r@[i].0 != r@[j].0,
            forall|k: u128|
                self@.contains_key(k) ==> exists|i: int| 0 <= i < r@.len() && (#[trigger] r@[i]).0 == k,
    {
        map_entries(&self.map)
    }
}

} // verus!
