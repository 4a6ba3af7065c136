//! Named items: open shells and running uploads.
//!
//! The items stand in a list; a `DashMap` tells at which place of the list the
//! item of a name stands.

use dashmap::DashMap;
use vstd::prelude::*;

verus! {

#[verifier::external_type_specification]
#[verifier::external_body]
#[verifier::reject_recursive_types(K)]
#[verifier::reject_recursive_types(V)]
#[verifier::reject_recursive_types(S)]
pub struct ExDashMap<K, V, S>(dashmap::DashMap<K, V, S>);

/// The entries of the map.
pub uninterp spec fn places(index: DashMap<String, u64>) -> Map<Seq<char>, u64>;

/// The value under a key, if there is one.
pub open spec fn under<V>(map: Map<Seq<char>, V>, key: Seq<char>) -> Option<V> {
    if map.contains_key(key) {
        Some(map[key])
    } else {
        None
    }
}

/// Calls `DashMap::new`: a map without entries.
#[verifier::external_body]
fn index_new() -> (index: DashMap<String, u64>)
    ensures
        places(index) =~= map![],
{
    DashMap::new()
}

/// Calls `DashMap::get`: a copy of the value under the key.
#[verifier::external_body]
fn index_get(index: &DashMap<String, u64>, key: &str) -> (r: Option<u64>)
    ensures
        r == under(places(*index), key@),
{
    index.get(key).map(|entry| *entry.value())
}

/// Calls `DashMap::insert`: the value stands under the key from now on, in place
/// of the one that stood there, which is handed out.
#[verifier::external_body]
fn index_insert(index: &mut DashMap<String, u64>, key: String, value: u64) -> (r: Option<u64>)
    ensures
        places(*final(index)) == places(*old(index)).insert(key@, value),
        r == under(places(*old(index)), key@),
{
    index.insert(key, value)
}

/// Calls `DashMap::remove`: nothing stands under the key from now on; the value
/// that stood there is handed out.
#[verifier::external_body]
fn index_remove(index: &mut DashMap<String, u64>, key: &str) -> (r: Option<u64>)
    ensures
        places(*final(index)) == places(*old(index)).remove(key@),
        r == under(places(*old(index)), key@),
{
    index.remove(key).map(|entry| entry.1)
}

/// Items by name, at most one for each name.
pub struct Registry<T> {
    index: DashMap<String, u64>,
    names: Vec<String>,
    items: Vec<T>,
}

impl<T> View for Registry<T> {
    type V = Map<Seq<char>, T>;

    closed spec fn view(&self) -> Map<Seq<char>, T> {
        places(self.index).map_values(|place: u64| self.items@[place as int])
    }
}

impl<T> Registry<T> {
    /// The map tells the place of each name on the list, and of no other name.
    pub closed spec fn wf(&self) -> bool {
        &&& self.names@.len() == self.items@.len()
        &&& self.names@.len() <= usize::MAX
        &&& forall|i: int|
            0 <= i < self.names@.len() ==> places(self.index).contains_key(
                #[trigger] self.names@[i]@,
            ) && places(self.index)[self.names@[i]@] == i
        &&& forall|name: Seq<char>| #[trigger]
            places(self.index).contains_key(name) ==> places(self.index)[name] < self.names@.len()
                && self.names@[places(self.index)[name] as int]@ == name
    }

    /// A registry without items.
    pub fn new() -> (r: Self)
        ensures
            r.wf(),
            r@ == Map::<Seq<char>, T>::empty(),
    {
        let r = Registry { index: index_new(), names: Vec::new(), items: Vec::new() };
        assert(r@ =~= Map::<Seq<char>, T>::empty());
        r
    }

    /// Whether there is an item of this name.
    pub fn contains(&self, name: &str) -> (yes: bool)
        requires
            self.wf(),
        ensures
            yes == self@.contains_key(name@),
    {
        index_get(&self.index, name).is_some()
    }

    /// The item of this name.
    pub fn get(&self, name: &str) -> (r: Option<&T>)
        requires
            self.wf(),
        ensures
            match r {
                Some(item) => self@.contains_key(name@) && *item == self@[name@],
                None => !self@.contains_key(name@),
            },
    {
        match index_get(&self.index, name) {
            Some(place) => {
                assert(places(self.index).contains_key(name@));
                Some(&self.items[place as usize])
            },
            None => None,
        }
    }

    /// The item of this name, to be changed.
    pub fn get_mut(&mut self, name: &str) -> (r: Option<&mut T>)
        requires
            old(self).wf(),
        ensures
            match r {
                Some(item) => {
                    &&& old(self)@.contains_key(name@)
                    &&& *item == old(self)@[name@]
                    &&& final(self)@ == old(self)@.insert(name@, *final(item))
                    &&& final(self).wf()
                },
                None => !old(self)@.contains_key(name@) && *final(self) == *old(self),
            },
    {
        match index_get(&self.index, name) {
            Some(place) => {
                assert(places(self.index).contains_key(name@));
                Some(&mut self.items[place as usize])
            },
            None => None,
        }
    }

    /// Give the name to this item. The item that had the name is handed out.
    pub fn insert(&mut self, name: String, item: T) -> (r: Option<T>)
        requires
            old(self).wf(),
        ensures
            final(self).wf(),
            final(self)@ == old(self)@.insert(name@, item),
            r == under(old(self)@, name@),
    {
        match index_get(&self.index, name.as_str()) {
            Some(place) => {
                assert(places(self.index).contains_key(name@));
                let mut item = item;
                std::mem::swap(&mut self.items[place as usize], &mut item);
                Some(item)
            },
            None => {
                let place = self.items.len() as u64;
                let key = name.clone();
                self.names.push(name);
                self.items.push(item);
                index_insert(&mut self.index, key, place);
                assert(self.names@.len() == self.names.len());
                None
            },
        }
    }

    /// Take the item of this name out.
    pub fn remove(&mut self, name: &str) -> (r: Option<T>)
        requires
            old(self).wf(),
        ensures
            final(self).wf(),
            final(self)@ == old(self)@.remove(name@),
            r == under(old(self)@, name@),
    {
        match index_remove(&mut self.index, name) {
            Some(place) => {
                let at = place as usize;
                let last = self.items.len() - 1;
                let _ = self.names.swap_remove(at);
                let item = self.items.swap_remove(at);
                if at < last {
                    let moved = self.names[at].clone();
                    index_insert(&mut self.index, moved, place);
                }
                Some(item)
            },
            None => None,
        }
    }
}

} // verus!
