//! A post that moves through a fixed moderation workflow, with each stage a
//! distinct type: a freshly written post is published for moderation, a
//! moderator then allows or denies it, and an allowed post can later be
//! deleted. Transitions that skip a stage do not compile.

use std::marker::PhantomData;
use vstd::prelude::*;

verus! {

/// Stage of a post that was just written.
pub struct New;

/// Stage of a post waiting for moderation.
pub struct Unmoderated;

/// Stage of a post visible to readers.
pub struct Published;

/// Stage of a post taken down.
pub struct Deleted;

/// A post, carrying its stage in the type.
pub struct Post<State> {
    id: u64,
    title: String,
    body: String,
    state: PhantomData<State>,
}

impl<State> Post<State> {
    /// The post's identifier.
    pub closed spec fn spec_id(&self) -> u64 {
        self.id
    }

    /// The post's title.
    pub closed spec fn spec_title(&self) -> Seq<char> {
        self.title@
    }

    /// The post's body text.
    pub closed spec fn spec_body(&self) -> Seq<char> {
        self.body@
    }
}

impl Post<New> {
    /// A freshly written post.
    pub fn new(id: u64, title: String, body: String) -> (p: Self)
        ensures
            p.spec_id() == id,
            p.spec_title() == title@,
            p.spec_body() == body@,
    {
        Post { id, title, body, state: PhantomData }
    }

    /// Hands the post to moderation; its content is untouched.
    pub fn publish(self) -> (p: Post<Unmoderated>)
        ensures
            p.spec_id() == self.spec_id(),
            p.spec_title() == self.spec_title(),
            p.spec_body() == self.spec_body(),
    {
        Post { id: self.id, title: self.title, body: self.body, state: PhantomData }
    }
}

impl Post<Unmoderated> {
    /// The moderator allows the post; its content is untouched.
    pub fn allow(self) -> (p: Post<Published>)
        ensures
            p.spec_id() == self.spec_id(),
            p.spec_title() == self.spec_title(),
            p.spec_body() == self.spec_body(),
    {
        Post { id: self.id, title: self.title, body: self.body, state: PhantomData }
    }

    /// The moderator denies the post; its content is untouched.
    pub fn deny(self) -> (p: Post<Deleted>)
        ensures
            p.spec_id() == self.spec_id(),
            p.spec_title() == self.spec_title(),
            p.spec_body() == self.spec_body(),
    {
        Post { id: self.id, title: self.title, body: self.body, state: PhantomData }
    }
}

impl Post<Published> {
    /// Takes the post down; its content is untouched.
    pub fn delete(self) -> (p: Post<Deleted>)
        ensures
            p.spec_id() == self.spec_id(),
            p.spec_title() == self.spec_title(),
            p.spec_body() == self.spec_body(),
    {
        Post { id: self.id, title: self.title, body: self.body, state: PhantomData }
    }
}

} // verus!
