//! Repositories: how a relational store's answers are read, and a store
//! that keeps its rows in memory.

use crate::domain::{User, UserRepository, UserView};
use crate::errors::{AppError, AppErrorView};
use vstd::prelude::*;

verus! {

/// How a query that expects one row failed, by class. The store's own
/// words stay with the store: what leaves the service is the line of the
/// class.
#[derive(Debug, Clone, Copy)]
pub enum StoreFailure {
    /// The query ran and gave no row.
    RowMissing,
    /// The store could not be reached, or not in time.
    Unreachable,
    /// The store refused the statement.
    Rejected,
    /// The store's answer could not be read as a user.
    Unreadable,
    /// A failure of no other class.
    Other,
}

/// The line that reports a failure of each class.
pub open spec fn diagnostic_text(failure: StoreFailure) -> Seq<char> {
    match failure {
        StoreFailure::RowMissing => "the store returned no row"@,
        StoreFailure::Unreachable => "the store could not be reached"@,
        StoreFailure::Rejected => "the store refused the statement"@,
        StoreFailure::Unreadable => "the answer of the store could not be read"@,
        StoreFailure::Other => "the store failed"@,
    }
}

/// The diagnostic of a failure: the line of its class, and nothing that
/// the store said.
pub fn diagnostic(failure: StoreFailure) -> (text: String)
    ensures
        text@ == diagnostic_text(failure),
{
    match failure {
        StoreFailure::RowMissing => "the store returned no row".to_owned(),
        StoreFailure::Unreachable => "the store could not be reached".to_owned(),
        StoreFailure::Rejected => "the store refused the statement".to_owned(),
        StoreFailure::Unreadable => "the answer of the store could not be read".to_owned(),
        StoreFailure::Other => "the store failed".to_owned(),
    }
}

/// What a point lookup answers, given what the store reported: the row;
/// "not found" where the query gave none; the diagnostic of the failure's
/// class where the query itself failed.
pub fn lookup_result(outcome: Result<User, StoreFailure>) -> (found: Result<User, AppError>)
    ensures
        match outcome {
            Ok(row) => found == Ok::<User, AppError>(row),
            Err(failure) => found matches Err(e) && e@ == (if failure is RowMissing {
                AppErrorView::NotFound
            } else {
                AppErrorView::DatabaseError(diagnostic_text(failure))
            }),
        },
{
    match outcome {
        Ok(row) => Ok(row),
        Err(StoreFailure::RowMissing) => Err(AppError::NotFound),
        Err(failure) => Err(AppError::DatabaseError(diagnostic(failure))),
    }
}

/// What an insert that returns its row answers, given what the store
/// reported: the row, or the diagnostic of the failure's class, whatever
/// went wrong.
pub fn insert_result(outcome: Result<User, StoreFailure>) -> (created: Result<User, AppError>)
    ensures
        match outcome {
            Ok(row) => created == Ok::<User, AppError>(row),
            Err(failure) => created matches Err(e) && e@ == AppErrorView::DatabaseError(
                diagnostic_text(failure),
            ),
        },
{
    match outcome {
        Ok(row) => Ok(row),
        Err(failure) => Err(AppError::DatabaseError(diagnostic(failure))),
    }
}

/// A store that keeps its rows in memory and numbers them from one in the
/// order in which they came.
#[derive(Debug)]
pub struct InMemoryUserRepository {
    users: Vec<User>,
}

impl InMemoryUserRepository {
    #[verifier::type_invariant]
    closed spec fn numbered_from_one(&self) -> bool {
        &&& self.users@.len() <= i32::MAX
        &&& forall|i: int| 0 <= i < self.users@.len() ==> (#[trigger] self.users@[i]).id == i + 1
    }

    /// How many rows the store holds.
    pub closed spec fn count(&self) -> nat {
        self.users@.len()
    }

    /// A store without rows.
    pub fn new() -> (store: Self)
        ensures
            store.count() == 0,
            store.rows() == Map::<i32, UserView>::empty(),
    {
        let store = InMemoryUserRepository { users: Vec::new() };
        assert(store.rows() =~= Map::empty());
        store
    }

    /// How many rows the store holds. The rows are those numbered from
    /// one up to that count.
    pub fn len(&self) -> (n: usize)
        ensures
            n == self.count(),
            n <= i32::MAX,
            forall|id: i32| self.rows().contains_key(id) <==> 1 <= id <= n,
    {
        proof {
            use_type_invariant(self);
        }
        self.users.len()
    }
}

impl UserRepository for InMemoryUserRepository {
    closed spec fn rows(&self) -> Map<i32, UserView> {
        Map::new(
            |id: i32| 1 <= id <= self.users@.len(),
            |id: i32| self.users@[id - 1]@,
        )
    }

    /// The user of that identifier, found exactly if the store holds it;
    /// "not found" otherwise. This store never fails to answer.
    fn get_user(&self, id: i32) -> (found: Result<User, AppError>)
        ensures
            found is Ok <==> self.rows().contains_key(id),
            found matches Err(e) ==> e is NotFound,
    {
        proof {
            use_type_invariant(self);
        }
        if 1 <= id && id as usize <= self.users.len() {
            Ok(self.users[(id - 1) as usize].clone())
        } else {
            Err(AppError::NotFound)
        }
    }

    /// Stores the user under the next number. Fails exactly when the last
    /// number is taken.
    fn create_user(&mut self, user: User) -> (created: Result<User, AppError>)
        ensures
            created is Ok <==> old(self).count() < i32::MAX,
            created matches Ok(stored) ==> stored.id == old(self).count() + 1,
            created is Ok ==> final(self).count() == old(self).count() + 1,
            created matches Err(e) ==> e@ == AppErrorView::DatabaseError(
                "no identifier is left"@,
            ) && final(self).count() == old(self).count(),
    {
        proof {
            use_type_invariant(&*self);
        }
        if self.users.len() >= i32::MAX as usize {
            return Err(AppError::DatabaseError("no identifier is left".to_owned()));
        }
        let id: i32 = (self.users.len() + 1) as i32;
        let stored = User { id, username: user.username, email: user.email };
        let answer = stored.clone();
        let ghost before = self.rows();
        let mut users: Vec<User> = Vec::new();
        std::mem::swap(&mut users, &mut self.users);
        users.push(stored);
        self.users = users;
        assert(self.rows() =~= before.insert(id, answer@));
        Ok(answer)
    }
}

} // verus!
