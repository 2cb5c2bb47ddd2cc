//! Command handling: a command to create a user, a repository the handler
//! records users in, and a generic command-handler abstraction.

use crate::storage::User;
use vstd::prelude::*;

verus! {

/// The command: create a user with this id and email.
pub struct CreateUser {
    pub id: u64,
    pub email: String,
}

/// A repository of users, in insertion order; a lookup by id finds the
/// earliest inserted user with that id.
pub trait UserRepository: Sized {
    /// The recorded users, in insertion order.
    spec fn users_view(&self) -> Seq<User>;

    /// Records `user`, after everything recorded before.
    fn add_user(&mut self, user: User)
        ensures
            final(self).users_view() == old(self).users_view().push(user),
    ;

    /// Finds a recorded user with identifier `id`.
    fn get_user(&self, id: u64) -> (r: Option<&User>)
        ensures
            r is Some <==> exists|i: int|
                0 <= i < self.users_view().len() && (#[trigger] self.users_view()[i]).id == id,
            r matches Some(u) ==> u.id == id && exists|i: int|
                0 <= i < self.users_view().len() && #[trigger] self.users_view()[i] == *u,
    ;
}

/// Something that handles commands of type `C` against a context.
///
/// `handled` is the handler's contract: it relates the command, the context
/// before and after, and the outcome.
pub trait CommandHandler<C> {
    /// The state the command acts on.
    type Context;

    /// The outcome of handling.
    type Result;

    /// What handling promises: how the outcome and the new context relate to
    /// the command and the old context.
    spec fn handled(&self, cmd: &C, pre: Self::Context, post: Self::Context, r: Self::Result) -> bool;

    /// Handles `cmd` against `ctx`.
    fn handle_command(&self, cmd: &C, ctx: &mut Self::Context) -> (r: Self::Result)
        ensures
            self.handled(cmd, *old(ctx), *final(ctx), r),
    ;
}

/// A user handles a `CreateUser` by recording the new user in the
/// repository, activated, unless a user with that id is already recorded.
impl CommandHandler<CreateUser> for User {
    type Context = MockUserRepository;

    type Result = Result<(), String>;

    open spec fn handled(
        &self,
        cmd: &CreateUser,
        pre: MockUserRepository,
        post: MockUserRepository,
        r: Result<(), String>,
    ) -> bool {
        if exists|i: int|
            0 <= i < pre.users_view().len() && (#[trigger] pre.users_view()[i]).id == cmd.id {
            (r matches Err(e) && e@ == "User already exists"@) && post.users_view()
                == pre.users_view()
        } else {
            r is Ok && post.users_view() == pre.users_view().push(
                User { id: cmd.id, email: cmd.email, activated: true },
            )
        }
    }

    fn handle_command(&self, cmd: &CreateUser, ctx: &mut MockUserRepository) -> (r: Result<
        (),
        String,
    >) {
        if ctx.get_user(cmd.id).is_some() {
            Err("User already exists".to_owned())
        } else {
            let user = User { id: cmd.id, email: cmd.email.clone(), activated: true };
            ctx.add_user(user);
            Ok(())
        }
    }
}

/// An in-memory repository: users in insertion order.
pub struct MockUserRepository {
    pub users: Vec<User>,
}

impl MockUserRepository {
    /// An empty repository.
    pub fn new() -> (r: Self)
        ensures
            r.users_view() == Seq::<User>::empty(),
    {
        MockUserRepository { users: Vec::new() }
    }
}

impl UserRepository for MockUserRepository {
    open spec fn users_view(&self) -> Seq<User> {
        self.users@
    }

    fn add_user(&mut self, user: User) {
        self.users.push(user);
    }

    fn get_user(&self, id: u64) -> (r: Option<&User>) {
        let mut k: usize = 0;
        while k < self.users.len()
            invariant
                k <= self.users@.len(),
                forall|i: int| 0 <= i < k ==> (#[trigger] self.users@[i]).id != id,
            decreases self.users@.len() - k,
        {
            if self.users[k].id == id {
                proof {
                    assert(exists|i: int|
                        0 <= i < self.users_view().len() && (#[trigger] self.users_view()[i]).id
                            == id) by {
                        assert(self.users_view()[k as int].id == id);
                    }
                    assert(exists|i: int|
                        0 <= i < self.users_view().len() && #[trigger] self.users_view()[i]
                            == self.users_view()[k as int]) by {
                        assert(self.users_view()[k as int] == self.users_view()[k as int]);
                    }
                }
                return Some(&self.users[k]);
            }
            k = k + 1;
        }
        None
    }
}

} // verus!
