//! An event-sourced user: the state, and how each kind of event folds into
//! it. Times are Unix timestamps in seconds.

use crate::event;
use vstd::prelude::*;

verus! {

/// Something that can be built up by applying events of type `Ev`.
pub trait EventSourced<Ev>: Sized {
    /// How applying `ev` relates the state before to the state after.
    spec fn applied(pre: Self, ev: Ev, post: Self) -> bool;

    /// Applies the event's effects to the state.
    fn apply(&mut self, event: &Ev)
        ensures
            Self::applied(*old(self), *event, *final(self)),
    ;
}

/// A user identifier.
#[derive(Clone, Copy, Debug)]
pub struct Id(pub u64);

/// Relies on std::time::SystemTime::now and its distance from the Unix
/// epoch: the wall clock's seconds. Nothing is assumed of the clock's value;
/// a clock before the epoch reads as zero.
#[verifier::external_body]
fn unix_now_secs() -> u64 {
    match std::time::SystemTime::now().duration_since(std::time::UNIX_EPOCH) {
        Ok(d) => d.as_secs(),
        Err(_) => 0,
    }
}

impl Id {
    /// A fresh identifier drawn from the clock (for simplicity, the current
    /// Unix timestamp).
    pub fn new() -> Self {
        Id(unix_now_secs())
    }
}

/// A user's display name.
#[derive(Clone, Debug)]
pub struct Name(pub String);

/// When a user was created.
#[derive(Clone, Copy, Debug)]
pub struct CreationDateTime(pub u64);

/// When a user was last seen doing something.
#[derive(Clone, Copy, Debug)]
pub struct LastActivityDateTime(pub u64);

/// When a user was deleted.
#[derive(Clone, Copy, Debug)]
pub struct DeletionDateTime(pub u64);

/// The projected state of one user.
#[non_exhaustive]
#[derive(Debug)]
pub struct User {
    pub id: Id,
    pub name: Option<Name>,
    pub online_since: Option<u64>,
    pub created_at: CreationDateTime,
    pub last_activity_at: LastActivityDateTime,
    pub deleted_at: Option<DeletionDateTime>,
}

impl User {
    /// A fresh user with the given name: not online, not deleted, created
    /// and last active now, with an identifier drawn from the clock.
    pub fn new(name: &str) -> (u: Self)
        ensures
            u.name matches Some(n) && n.0@ == name@,
            u.online_since is None,
            u.deleted_at is None,
            u.created_at.0 == u.last_activity_at.0,
    {
        let now = unix_now_secs();
        User {
            id: Id::new(),
            name: Some(Name(name.to_owned())),
            online_since: None,
            created_at: CreationDateTime(now),
            last_activity_at: LastActivityDateTime(now),
            deleted_at: None,
        }
    }
}

impl EventSourced<event::UserCreated> for User {
    open spec fn applied(pre: User, ev: event::UserCreated, post: User) -> bool {
        post == User {
            id: ev.user_id,
            created_at: ev.at,
            last_activity_at: LastActivityDateTime(ev.at.0),
            ..pre
        }
    }

    fn apply(&mut self, event: &event::UserCreated) {
        self.id = event.user_id;
        self.created_at = event.at;
        self.last_activity_at = LastActivityDateTime(event.at.0);
    }
}

impl EventSourced<event::UserNameUpdated> for User {
    open spec fn applied(pre: User, ev: event::UserNameUpdated, post: User) -> bool {
        post == User { name: ev.name, ..pre }
    }

    fn apply(&mut self, event: &event::UserNameUpdated) {
        self.name = match &event.name {
            Some(n) => Some(Name(n.0.clone())),
            None => None,
        };
    }
}

impl EventSourced<event::UserBecameOnline> for User {
    open spec fn applied(pre: User, ev: event::UserBecameOnline, post: User) -> bool {
        post == User { online_since: Some(ev.at), ..pre }
    }

    fn apply(&mut self, event: &event::UserBecameOnline) {
        self.online_since = Some(event.at);
    }
}

impl EventSourced<event::UserBecameOffline> for User {
    open spec fn applied(pre: User, ev: event::UserBecameOffline, post: User) -> bool {
        post == User {
            online_since: None,
            last_activity_at: LastActivityDateTime(ev.at),
            ..pre
        }
    }

    fn apply(&mut self, event: &event::UserBecameOffline) {
        self.online_since = None;
        self.last_activity_at = LastActivityDateTime(event.at);
    }
}

impl EventSourced<event::UserDeleted> for User {
    open spec fn applied(pre: User, ev: event::UserDeleted, post: User) -> bool {
        post == User {
            deleted_at: Some(ev.at),
            last_activity_at: LastActivityDateTime(ev.at.0),
            ..pre
        }
    }

    fn apply(&mut self, event: &event::UserDeleted) {
        self.deleted_at = Some(event.at);
        self.last_activity_at = LastActivityDateTime(event.at.0);
    }
}

/// Any event of a user's history.
#[derive(Debug)]
pub enum Event {
    Created(event::UserCreated),
    NameUpdated(event::UserNameUpdated),
    Online(event::UserBecameOnline),
    Offline(event::UserBecameOffline),
    Deleted(event::UserDeleted),
}

impl EventSourced<Event> for User {
    open spec fn applied(pre: User, ev: Event, post: User) -> bool {
        match ev {
            Event::Created(e) => <User as EventSourced<event::UserCreated>>::applied(pre, e, post),
            Event::NameUpdated(e) => <User as EventSourced<event::UserNameUpdated>>::applied(
                pre,
                e,
                post,
            ),
            Event::Online(e) => <User as EventSourced<event::UserBecameOnline>>::applied(
                pre,
                e,
                post,
            ),
            Event::Offline(e) => <User as EventSourced<event::UserBecameOffline>>::applied(
                pre,
                e,
                post,
            ),
            Event::Deleted(e) => <User as EventSourced<event::UserDeleted>>::applied(pre, e, post),
        }
    }

    fn apply(&mut self, event: &Event) {
        match event {
            Event::Created(e) => self.apply(e),
            Event::NameUpdated(e) => self.apply(e),
            Event::Online(e) => self.apply(e),
            Event::Offline(e) => self.apply(e),
            Event::Deleted(e) => self.apply(e),
        }
    }
}

} // verus!
