//! A keyed storage abstraction with a hash-map backing, and user
//! repositories built over it — one holding its storage as a boxed value,
//! one generic over the storage type.

use std::collections::HashMap;
use vstd::prelude::*;

verus! {

broadcast use vstd::std_specs::hash::group_hash_axioms;

/// Generic keyed storage.
///
/// `map_view` abstracts the stored associations; the contracts bind whenever
/// the implementation is `reliable` — a hash-map backing, for instance, is
/// reliable when its key type behaves like a mathematical key.
pub trait Storage<K, V>: Sized {
    /// The stored associations.
    spec fn map_view(&self) -> Map<K, V>;

    /// Whether the contracts below pin the behaviour down.
    spec fn reliable() -> bool;

    /// Stores `val` under `key`, replacing any previous value.
    fn set(&mut self, key: K, val: V)
        ensures
            Self::reliable() ==> final(self).map_view() == old(self).map_view().insert(key, val),
    ;

    /// Looks up the value stored under `key`.
    fn get(&self, key: &K) -> (r: Option<&V>)
        ensures
            Self::reliable() ==> match r {
                Some(v) => self.map_view().contains_key(*key) && *v == self.map_view()[*key],
                None => !self.map_view().contains_key(*key),
            },
    ;

    /// Removes and returns the value stored under `key`, if any.
    fn remove(&mut self, key: &K) -> (r: Option<V>)
        ensures
            Self::reliable() ==> {
                &&& final(self).map_view() == old(self).map_view().remove(*key)
                &&& match r {
                    Some(v) => old(self).map_view().contains_key(*key) && v == old(
                        self,
                    ).map_view()[*key],
                    None => !old(self).map_view().contains_key(*key),
                }
            },
    ;
}

/// Keyed storage over a standard hash map.
pub struct HashMapStorage<K, V> {
    inner: HashMap<K, V>,
}

impl<K, V> HashMapStorage<K, V> where K: Eq + std::hash::Hash {
    /// Empty storage.
    pub fn new() -> (s: Self)
        ensures
            s.map_view() == Map::<K, V>::empty(),
    {
        HashMapStorage { inner: HashMap::new() }
    }
}

impl<K, V> Storage<K, V> for HashMapStorage<K, V> where K: Eq + std::hash::Hash {
    closed spec fn map_view(&self) -> Map<K, V> {
        self.inner@
    }

    open spec fn reliable() -> bool {
        &&& vstd::std_specs::hash::obeys_key_model::<K>()
        &&& vstd::std_specs::hash::builds_valid_hashers::<std::hash::RandomState>()
    }

    fn set(&mut self, key: K, val: V) {
        self.inner.insert(key, val);
    }

    fn get(&self, key: &K) -> (r: Option<&V>) {
        self.inner.get(key)
    }

    fn remove(&mut self, key: &K) -> (r: Option<V>) {
        self.inner.remove(key)
    }
}

/// A user of the repositories.
#[derive(Clone, Debug, PartialEq, Eq)]
pub struct User {
    pub id: u64,
    pub email: String,
    pub activated: bool,
}

/// A user repository over boxed hash-map storage, keyed by user id.
pub struct UserRepositoryDyn {
    storage: Box<HashMapStorage<u64, User>>,
}

impl UserRepositoryDyn {
    /// The stored users, by id.
    pub closed spec fn users(&self) -> Map<u64, User> {
        self.storage.map_view()
    }

    /// A repository over the given storage.
    pub fn new(storage: Box<HashMapStorage<u64, User>>) -> (r: Self)
        ensures
            r.users() == storage.map_view(),
    {
        UserRepositoryDyn { storage }
    }

    /// Stores `user` under its id, replacing any previous user with that id.
    pub fn add_user(&mut self, user: User)
        ensures
            final(self).users() == old(self).users().insert(user.id, user),
    {
        let id = user.id;
        self.storage.set(id, user);
    }

    /// Looks the user with identifier `id` up.
    pub fn get_user(&self, id: u64) -> (r: Option<&User>)
        ensures
            r matches Some(u) ==> self.users().contains_key(id) && *u == self.users()[id],
            r is None ==> !self.users().contains_key(id),
    {
        self.storage.get(&id)
    }

    /// Stores `user` under its id, replacing any previous user with that id.
    pub fn update_user(&mut self, user: User)
        ensures
            final(self).users() == old(self).users().insert(user.id, user),
    {
        let id = user.id;
        self.storage.set(id, user);
    }

    /// Removes and returns the user with identifier `id`, if any.
    pub fn remove_user(&mut self, id: u64) -> (r: Option<User>)
        ensures
            final(self).users() == old(self).users().remove(id),
            r matches Some(u) ==> old(self).users().contains_key(id) && u == old(self).users()[id],
            r is None ==> !old(self).users().contains_key(id),
    {
        self.storage.remove(&id)
    }
}

/// A user repository generic over its storage, keyed by user id.
pub struct UserRepositoryStatic<S> where S: Storage<u64, User> {
    storage: S,
}

impl<S> UserRepositoryStatic<S> where S: Storage<u64, User> {
    /// The stored users, by id.
    pub closed spec fn users(&self) -> Map<u64, User> {
        self.storage.map_view()
    }

    /// A repository over the given storage.
    pub fn new(storage: S) -> (r: Self)
        ensures
            r.users() == storage.map_view(),
    {
        UserRepositoryStatic { storage }
    }

    /// Stores `user` under its id, replacing any previous user with that id.
    pub fn add_user(&mut self, user: User)
        ensures
            S::reliable() ==> final(self).users() == old(self).users().insert(user.id, user),
    {
        let id = user.id;
        self.storage.set(id, user);
    }

    /// Looks the user with identifier `id` up.
    pub fn get_user(&self, id: u64) -> (r: Option<&User>)
        ensures
            S::reliable() ==> match r {
                Some(u) => self.users().contains_key(id) && *u == self.users()[id],
                None => !self.users().contains_key(id),
            },
    {
        self.storage.get(&id)
    }

    /// Stores `user` under its id, replacing any previous user with that id.
    pub fn update_user(&mut self, user: User)
        ensures
            S::reliable() ==> final(self).users() == old(self).users().insert(user.id, user),
    {
        let id = user.id;
        self.storage.set(id, user);
    }

    /// Removes and returns the user with identifier `id`, if any.
    pub fn remove_user(&mut self, id: u64) -> (r: Option<User>)
        ensures
            S::reliable() ==> {
                &&& final(self).users() == old(self).users().remove(id)
                &&& (r matches Some(u) ==> old(self).users().contains_key(id) && u == old(
                    self,
                ).users()[id])
                &&& (r is None ==> !old(self).users().contains_key(id))
            },
    {
        self.storage.remove(&id)
    }
}

} // verus!
