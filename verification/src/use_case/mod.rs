//! The seam between the handlers and the store.

use crate::domain::{insert_answer, lookup_answer, User, UserRepository, UserView};
use crate::errors::AppError;
use vstd::prelude::*;

verus! {

/// The operations on users. Each hands its work to the repository and
/// passes the answer on as it came.
pub struct UserUseCase<R: UserRepository> {
    repository: R,
}

impl<R: UserRepository> UserUseCase<R> {
    /// The rows that the repository holds, by identifier.
    pub closed spec fn rows(&self) -> Map<i32, UserView> {
        self.repository.rows()
    }

    /// The repository behind the use case.
    pub closed spec fn repository(&self) -> R {
        self.repository
    }

    /// The use case over that repository.
    pub fn new(repository: R) -> (use_case: Self)
        ensures
            use_case.repository() == repository,
            use_case.rows() == repository.rows(),
    {
        Self { repository }
    }

    /// The user of that identifier: the answer is the one that the
    /// repository gave when asked for it, as it came.
    pub fn get_user(&self, user_id: i32) -> (found: Result<User, AppError>)
        ensures
            call_ensures(R::get_user, (&self.repository(), user_id), found),
            lookup_answer(self.rows(), user_id, found),
    {
        self.repository.get_user(user_id)
    }

    /// Has the user stored: the answer is the one that the repository gave
    /// when handed that user, as it came, and the repository is as that
    /// call left it.
    pub fn create_user(&mut self, user: User) -> (created: Result<User, AppError>)
        ensures
            exists|r: &mut R|
                {
                    &&& #[trigger] call_ensures(R::create_user, (r, user), created)
                    &&& mut_ref_current(r) == old(self).repository()
                    &&& mut_ref_future(r) == final(self).repository()
                },
            insert_answer(old(self).rows(), final(self).rows(), user@, created),
    {
        self.repository.create_user(user)
    }
}

} // verus!
