//! The user entity and the capability every user store offers.

pub mod dto;
pub mod response_helpers;

use crate::errors::AppError;
use vstd::prelude::*;

verus! {

/// A user as the service knows it. The store assigns `id`; a user that was
/// not stored yet carries `0`.
#[derive(Debug)]
pub struct User {
    pub id: i32,
    pub username: String,
    pub email: String,
}

/// What a `User` holds, as mathematical values.
pub struct UserView {
    pub id: int,
    pub username: Seq<char>,
    pub email: Seq<char>,
}

impl View for User {
    type V = UserView;

    open spec fn view(&self) -> UserView {
        UserView { id: self.id as int, username: self.username@, email: self.email@ }
    }
}

impl Clone for User {
    fn clone(&self) -> (copy: Self)
        ensures
            copy == *self,
    {
        User { id: self.id, username: self.username.clone(), email: self.email.clone() }
    }
}

/// What a lookup by `id` may answer on a store that holds `rows`: the row
/// of that identifier, and a user only where there is such a row; "not
/// found" only where there is none; or, row or no row, the failure of a
/// store that could not be asked.
pub open spec fn lookup_answer(
    rows: Map<i32, UserView>,
    id: i32,
    found: Result<User, AppError>,
) -> bool {
    match found {
        Ok(user) => rows.contains_key(id) && user.id == id && user@ == rows[id],
        Err(e) => e is DatabaseError || (e is NotFound && !rows.contains_key(id)),
    }
}

/// What storing `user` may answer on a store that held `before` and holds
/// `after`: the user under a fresh identifier other than zero, name and
/// address as they came, and that row added; or a failure of the store,
/// which then holds what it held.
pub open spec fn insert_answer(
    before: Map<i32, UserView>,
    after: Map<i32, UserView>,
    user: UserView,
    created: Result<User, AppError>,
) -> bool {
    match created {
        Ok(stored) => {
            &&& stored.id != 0
            &&& !before.contains_key(stored.id)
            &&& stored.username@ == user.username
            &&& stored.email@ == user.email
            &&& after == before.insert(stored.id, stored@)
        },
        Err(e) => e is DatabaseError && after == before,
    }
}

/// A store of users. The layers above know a store by this capability
/// alone, whatever keeps the rows.
pub trait UserRepository {
    /// The rows that the store holds, by identifier.
    spec fn rows(&self) -> Map<i32, UserView>;

    /// The user of that identifier.
    fn get_user(&self, id: i32) -> (found: Result<User, AppError>)
        ensures
            lookup_answer(self.rows(), id, found),
    ;

    /// Stores the user under an identifier that the store picks.
    fn create_user(&mut self, user: User) -> (created: Result<User, AppError>)
        ensures
            insert_answer(old(self).rows(), final(self).rows(), user@, created),
    ;
}

/// A user that was stored and is looked up under the identifier it got is
/// found as it was stored: with that identifier, which is not zero, and
/// with the name and the address that were handed in. The one other
/// answer is the failure of a store that could not be asked; "not found"
/// it is never.
pub proof fn lemma_stored_user_is_found(
    before: Map<i32, UserView>,
    after: Map<i32, UserView>,
    user: UserView,
    created: Result<User, AppError>,
    found: Result<User, AppError>,
)
    requires
        insert_answer(before, after, user, created),
        created is Ok,
        lookup_answer(after, created->Ok_0.id, found),
    ensures
        found matches Ok(again) ==> {
            &&& again@ == created->Ok_0@
            &&& again.id != 0
            &&& again.username@ == user.username
            &&& again.email@ == user.email
        },
        found matches Err(e) ==> e is DatabaseError,
{
}

} // verus!
