//! Bars, each owned by one user and optionally shown with a thumbnail.

use crate::error::{is_database_error, DatabaseFailure, Error, NOT_FOUND};
use crate::ident::{Id, Timestamp};
use crate::model::media::{scope_thumbnail, thumbnail_scoped, MediaModel};
use crate::text::{lowercased, normalize_name};
use vstd::prelude::*;

verus! {

#[derive(Clone, Debug, PartialEq, Eq)]
pub struct BarModel {
    pub id: Id,
    pub name: String,
    pub owner: Id,
    pub created_at: Timestamp,
    pub thumbnail: Option<MediaModel>,
}

/// What a caller sends to create a bar.
#[derive(Clone, Debug, PartialEq, Eq)]
pub struct CreateBarSchema {
    pub name: String,
    pub thumbnail_id: Option<Id>,
}

/// A bar as its owner sees it: the row with its thumbnail kept only where
/// the thumbnail is the owner's too.
pub open spec fn bar_scoped(row: BarModel, owner: Id) -> BarModel {
    BarModel { thumbnail: thumbnail_scoped(row.thumbnail, owner), ..row }
}

/// The rows of one owner, in the order they came, each as the owner sees it.
pub open spec fn bars_of(rows: Seq<BarModel>, owner: Id) -> Seq<BarModel>
    decreases rows.len(),
{
    if rows.len() == 0 {
        Seq::empty()
    } else if rows.last().owner == owner {
        bars_of(rows.drop_last(), owner).push(bar_scoped(rows.last(), owner))
    } else {
        bars_of(rows.drop_last(), owner)
    }
}

/// Index of the first row at or after `from` with this owner and id, or the
/// number of rows where there is none.
pub open spec fn bar_position(rows: Seq<BarModel>, owner: Id, id: Id, from: int) -> int
    decreases rows.len() - from,
{
    if from < 0 || from >= rows.len() {
        rows.len() as int
    } else if rows[from].owner == owner && rows[from].id == id {
        from
    } else {
        bar_position(rows, owner, id, from + 1)
    }
}

/// The thumbnail of a newly created bar: the stored row's, where it is the
/// one that was asked for and belongs to the owner.
pub open spec fn requested_thumbnail(
    joined: Option<MediaModel>,
    wanted: Option<Id>,
    owner: Id,
) -> Option<MediaModel> {
    match (thumbnail_scoped(joined, owner), wanted) {
        (Some(media), Some(id)) => if media.id == id {
            Some(media)
        } else {
            None
        },
        _ => None,
    }
}

/// Resolves the thumbnail of a newly created row.
pub fn resolve_thumbnail(joined: &Option<MediaModel>, wanted: Option<Id>, owner: Id) -> (r: Option<
    MediaModel,
>)
    ensures
        r == requested_thumbnail(*joined, wanted, owner),
{
    match (scope_thumbnail(joined, owner), wanted) {
        (Some(media), Some(id)) => if media.id == id {
            Some(media)
        } else {
            None
        },
        _ => None,
    }
}

fn find_bar(rows: &Vec<BarModel>, owner: Id, id: Id) -> (r: usize)
    ensures
        r == bar_position(rows@, owner, id, 0),
        r <= rows@.len(),
        r < rows@.len() ==> rows@[r as int].owner == owner && rows@[r as int].id == id,
{
    let mut i: usize = 0;
    while i < rows.len() && !(rows[i].owner == owner && rows[i].id == id)
        invariant
            i <= rows.len(),
            bar_position(rows@, owner, id, 0) == bar_position(rows@, owner, id, i as int),
        decreases rows.len() - i,
    {
        i += 1;
    }
    i
}

impl BarModel {
    /// This row as `owner` sees it.
    pub fn scoped(&self, owner: Id) -> (r: BarModel)
        ensures
            r == bar_scoped(*self, owner),
    {
        BarModel {
            id: self.id,
            name: self.name.clone(),
            owner: self.owner,
            created_at: self.created_at,
            thumbnail: scope_thumbnail(&self.thumbnail, owner),
        }
    }

    /// The bar that a create request ends in, from the row that the store
    /// made for it: the store's id and creation time, the caller as owner,
    /// the requested name in lower case, and the requested thumbnail where it
    /// resolves under the same owner. A row of another owner is not handed
    /// on.
    pub fn create(stored: Result<BarModel, DatabaseFailure>, owner: Id, bar: CreateBarSchema) -> (r:
        Result<BarModel, Error>)
        ensures
            match stored {
                Ok(row) => if row.owner == owner {
                    &&& r is Ok
                    &&& r->Ok_0.id == row.id
                    &&& r->Ok_0.name@ == lowercased(bar.name@)
                    &&& r->Ok_0.owner == owner
                    &&& r->Ok_0.created_at == row.created_at
                    &&& r->Ok_0.thumbnail == requested_thumbnail(
                        row.thumbnail,
                        bar.thumbnail_id,
                        owner,
                    )
                } else {
                    r is Err && r->Err_0.is(NOT_FOUND, "no rows"@)
                },
                Err(failure) => r is Err && is_database_error(failure, r->Err_0),
            },
    {
        match stored {
            Ok(row) => if row.owner == owner {
                Ok(
                    BarModel {
                        id: row.id,
                        name: normalize_name(bar.name.as_str()),
                        owner,
                        created_at: row.created_at,
                        thumbnail: resolve_thumbnail(&row.thumbnail, bar.thumbnail_id, owner),
                    },
                )
            } else {
                Err(Error::new(NOT_FOUND, "no rows"))
            },
            Err(failure) => Err(Error::from_database(failure)),
        }
    }

    /// The owner's bars among the fetched rows, in the order they came. No
    /// row of another owner is among them.
    pub fn all(fetched: Result<Vec<BarModel>, DatabaseFailure>, owner: Id) -> (r: Result<
        Vec<BarModel>,
        Error,
    >)
        ensures
            match fetched {
                Ok(rows) => r is Ok && r->Ok_0@ == bars_of(rows@, owner),
                Err(failure) => r is Err && is_database_error(failure, r->Err_0),
            },
            r is Ok ==> forall|j: int|
                0 <= j < r->Ok_0@.len() ==> (#[trigger] r->Ok_0@[j]).owner == owner,
    {
        match fetched {
            Ok(rows) => {
                let mut out: Vec<BarModel> = Vec::new();
                let mut i: usize = 0;
                while i < rows.len()
                    invariant
                        i <= rows.len(),
                        out@ == bars_of(rows@.take(i as int), owner),
                        forall|j: int| 0 <= j < out@.len() ==> (#[trigger] out@[j]).owner == owner,
                    decreases rows.len() - i,
                {
                    proof {
                        assert(rows@.take(i + 1).drop_last() =~= rows@.take(i as int));
                    }
                    if rows[i].owner == owner {
                        out.push(rows[i].scoped(owner));
                    }
                    i += 1;
                }
                proof {
                    assert(rows@.take(i as int) =~= rows@);
                }
                Ok(out)
            },
            Err(failure) => Err(Error::from_database(failure)),
        }
    }

    /// Picks the owner's bar with the given id out of the fetched rows: the
    /// first such row as the owner sees it, `NotFound` where there is none,
    /// so also where every bar with that id belongs to someone else.
    pub fn retrieve(fetched: Result<Vec<BarModel>, DatabaseFailure>, owner: Id, id: Id) -> (r:
        Result<BarModel, Error>)
        ensures
            match fetched {
                Ok(rows) => {
                    let at = bar_position(rows@, owner, id, 0);
                    if at < rows@.len() {
                        r is Ok && r->Ok_0 == bar_scoped(rows@[at], owner)
                    } else {
                        r is Err && r->Err_0.is(NOT_FOUND, "no rows"@)
                    }
                },
                Err(failure) => r is Err && is_database_error(failure, r->Err_0),
            },
            r is Ok ==> r->Ok_0.owner == owner && r->Ok_0.id == id,
            fetched matches Ok(rows) && (forall|k: int|
                0 <= k < rows@.len() && (#[trigger] rows@[k]).id == id ==> rows@[k].owner != owner)
                ==> r is Err && r->Err_0.is(NOT_FOUND, "no rows"@),
    {
        match fetched {
            Ok(rows) => {
                let at = find_bar(&rows, owner, id);
                if at < rows.len() {
                    Ok(rows[at].scoped(owner))
                } else {
                    Err(Error::new(NOT_FOUND, "no rows"))
                }
            },
            Err(failure) => Err(Error::from_database(failure)),
        }
    }
}

} // verus!
