//! The events a user's history is made of. Times are Unix timestamps in
//! seconds.

use crate::user;
use vstd::prelude::*;

verus! {

/// A user was created.
#[non_exhaustive]
#[derive(Debug)]
pub struct UserCreated {
    pub user_id: user::Id,
    pub at: user::CreationDateTime,
    pub new_field: Option<i32>,
}

impl UserCreated {
    /// A creation event for `user_id` at time `at`.
    pub fn new(user_id: user::Id, at: user::CreationDateTime) -> (ev: Self)
        ensures
            ev.user_id == user_id,
            ev.at == at,
            ev.new_field == Some(0i32),
    {
        UserCreated { user_id, at, new_field: Some(0) }
    }
}

/// A user's name was updated (or cleared).
#[non_exhaustive]
#[derive(Debug)]
pub struct UserNameUpdated {
    pub user_id: user::Id,
    pub name: Option<user::Name>,
    pub at: u64,
}

impl UserNameUpdated {
    /// A name-update event for `user_id` at time `at`.
    pub fn new(user_id: user::Id, name: Option<user::Name>, at: u64) -> (ev: Self)
        ensures
            ev.user_id == user_id,
            ev.name == name,
            ev.at == at,
    {
        UserNameUpdated { user_id, name, at }
    }
}

/// A user came online.
#[non_exhaustive]
#[derive(Debug)]
pub struct UserBecameOnline {
    pub user_id: user::Id,
    pub at: u64,
    pub new_field: Option<String>,
}

impl UserBecameOnline {
    /// An online event for `user_id` at time `at`.
    pub fn new(user_id: user::Id, at: u64) -> (ev: Self)
        ensures
            ev.user_id == user_id,
            ev.at == at,
            ev.new_field is None,
    {
        UserBecameOnline { user_id, at, new_field: None }
    }
}

/// A user went offline.
#[derive(Debug)]
pub struct UserBecameOffline {
    pub user_id: user::Id,
    pub at: u64,
}

/// A user was deleted.
#[derive(Debug)]
pub struct UserDeleted {
    pub user_id: user::Id,
    pub at: user::DeletionDateTime,
}

} // verus!
