//! Measurement units: a shared reference table that nobody owns.

use crate::error::{is_database_error, DatabaseFailure, Error};
use crate::ident::Id;
use vstd::prelude::*;

verus! {

#[derive(Clone, Debug, PartialEq, Eq)]
pub struct UnitModel {
    pub id: Id,
    pub name: String,
    pub abbreviation: String,
    pub system: Option<String>,
}

impl UnitModel {
    /// Every unit that the store holds, as it came, or the store's failure.
    pub fn all(fetched: Result<Vec<UnitModel>, DatabaseFailure>) -> (r: Result<
        Vec<UnitModel>,
        Error,
    >)
        ensures
            match fetched {
                Ok(rows) => r is Ok && r->Ok_0 == rows,
                Err(failure) => r is Err && is_database_error(failure, r->Err_0),
            },
    {
        match fetched {
            Ok(rows) => Ok(rows),
            Err(failure) => Err(Error::from_database(failure)),
        }
    }
}

} // verus!
