//! Users: anonymous identities that own bars, ingredients and media.

use crate::error::{is_database_error, DatabaseFailure, Error, NOT_FOUND};
use crate::ident::{Id, Timestamp};
use vstd::prelude::*;

verus! {

#[derive(Clone, Copy, Debug, PartialEq, Eq, Structural)]
pub struct UserModel {
    pub id: Id,
    pub created_at: Timestamp,
}

/// Index of the first row at or after `from` that has the wanted id, or the
/// number of rows where there is none.
pub open spec fn user_position(rows: Seq<UserModel>, id: Id, from: int) -> int
    decreases rows.len() - from,
{
    if from < 0 || from >= rows.len() {
        rows.len() as int
    } else if rows[from].id == id {
        from
    } else {
        user_position(rows, id, from + 1)
    }
}

fn find_user(rows: &Vec<UserModel>, id: Id) -> (r: usize)
    ensures
        r == user_position(rows@, id, 0),
        r <= rows@.len(),
        r < rows@.len() ==> rows@[r as int].id == id,
{
    let mut i: usize = 0;
    while i < rows.len() && !(rows[i].id == id)
        invariant
            i <= rows.len(),
            user_position(rows@, id, 0) == user_position(rows@, id, i as int),
        decreases rows.len() - i,
    {
        i += 1;
    }
    i
}

impl UserModel {
    /// Registers the row that the store made for a new user, or maps the
    /// store's failure.
    pub fn create(stored: Result<UserModel, DatabaseFailure>) -> (r: Result<UserModel, Error>)
        ensures
            match stored {
                Ok(user) => r == Ok::<UserModel, Error>(user),
                Err(failure) => r is Err && is_database_error(failure, r->Err_0),
            },
    {
        match stored {
            Ok(user) => Ok(user),
            Err(failure) => Err(Error::from_database(failure)),
        }
    }

    /// Picks the user with the given id out of the fetched rows: the first
    /// such row, `NotFound` where there is none, the mapped failure where the
    /// store failed.
    pub fn retrieve(fetched: Result<Vec<UserModel>, DatabaseFailure>, id: Id) -> (r: Result<
        UserModel,
        Error,
    >)
        ensures
            match fetched {
                Ok(rows) => {
                    let at = user_position(rows@, id, 0);
                    if at < rows@.len() {
                        r is Ok && r->Ok_0 == rows@[at]
                    } else {
                        r is Err && r->Err_0.is(NOT_FOUND, "no rows"@)
                    }
                },
                Err(failure) => r is Err && is_database_error(failure, r->Err_0),
            },
            r is Ok ==> r->Ok_0.id == id,
    {
        match fetched {
            Ok(rows) => {
                let at = find_user(&rows, id);
                if at < rows.len() {
                    Ok(rows[at])
                } else {
                    Err(Error::new(NOT_FOUND, "no rows"))
                }
            },
            Err(failure) => Err(Error::from_database(failure)),
        }
    }
}

} // verus!
