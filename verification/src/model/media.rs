//! Media metadata: one row per blob, pending until the blob is written.

use crate::error::{is_database_error, DatabaseFailure, Error, NOT_FOUND};
use crate::ident::{Id, Timestamp};
use vstd::prelude::*;

verus! {

/// The metadata of one blob. A row is pending while it has no size or no
/// content type, and finalized once it has both.
#[derive(Clone, Debug, PartialEq, Eq)]
pub struct MediaModel {
    pub id: Id,
    pub size: Option<i64>,
    pub content_type: Option<String>,
    pub owner: Id,
    pub created_at: Timestamp,
}

/// The fields that finalizing sets; an absent one keeps what the row has.
#[derive(Clone, Debug, PartialEq, Eq)]
pub struct UpdateMediaSchema {
    pub size: Option<i64>,
    pub content_type: Option<String>,
}

/// A thumbnail as its owner sees it: the media itself when it is theirs,
/// nothing otherwise.
pub open spec fn thumbnail_scoped(thumbnail: Option<MediaModel>, owner: Id) -> Option<MediaModel> {
    match thumbnail {
        Some(media) => if media.owner == owner {
            Some(media)
        } else {
            None
        },
        None => None,
    }
}

/// Index of the first row at or after `from` with this owner and id, or the
/// number of rows where there is none.
pub open spec fn media_position(rows: Seq<MediaModel>, owner: Id, id: Id, from: int) -> int
    decreases rows.len() - from,
{
    if from < 0 || from >= rows.len() {
        rows.len() as int
    } else if rows[from].owner == owner && rows[from].id == id {
        from
    } else {
        media_position(rows, owner, id, from + 1)
    }
}

/// The row after an update: each field of the update that is present
/// replaces the row's, and nothing else changes.
pub open spec fn media_updated(row: MediaModel, update: UpdateMediaSchema) -> MediaModel {
    MediaModel {
        size: if update.size is Some {
            update.size
        } else {
            row.size
        },
        content_type: if update.content_type is Some {
            update.content_type
        } else {
            row.content_type
        },
        ..row
    }
}

fn find_media(rows: &Vec<MediaModel>, owner: Id, id: Id) -> (r: usize)
    ensures
        r == media_position(rows@, owner, id, 0),
        r <= rows@.len(),
        r < rows@.len() ==> rows@[r as int].owner == owner && rows@[r as int].id == id,
{
    let mut i: usize = 0;
    while i < rows.len() && !(rows[i].owner == owner && rows[i].id == id)
        invariant
            i <= rows.len(),
            media_position(rows@, owner, id, 0) == media_position(rows@, owner, id, i as int),
        decreases rows.len() - i,
    {
        i += 1;
    }
    i
}

/// Keeps a joined thumbnail only where it belongs to the owner.
pub fn scope_thumbnail(thumbnail: &Option<MediaModel>, owner: Id) -> (r: Option<MediaModel>)
    ensures
        r == thumbnail_scoped(*thumbnail, owner),
{
    match thumbnail {
        Some(media) => if media.owner == owner {
            Some(media.duplicate())
        } else {
            None
        },
        None => None,
    }
}

impl MediaModel {
    /// True when the row has both its size and its content type.
    pub open spec fn finalized(&self) -> bool {
        self.size is Some && self.content_type is Some
    }

    /// A copy of this row.
    pub fn duplicate(&self) -> (r: MediaModel)
        ensures
            r == *self,
    {
        let content_type = match &self.content_type {
            Some(text) => Some(text.clone()),
            None => None,
        };
        MediaModel {
            id: self.id,
            size: self.size,
            content_type,
            owner: self.owner,
            created_at: self.created_at,
        }
    }

    /// True when the row has both its size and its content type.
    pub fn is_finalized(&self) -> (r: bool)
        ensures
            r == self.finalized(),
    {
        self.size.is_some() && self.content_type.is_some()
    }

    /// Accepts the pending row that the store made for an owner. A row of
    /// another owner is not handed on.
    pub fn create(stored: Result<MediaModel, DatabaseFailure>, owner: Id) -> (r: Result<
        MediaModel,
        Error,
    >)
        ensures
            match stored {
                Ok(row) => if row.owner == owner {
                    r is Ok && r->Ok_0 == row
                } else {
                    r is Err && r->Err_0.is(NOT_FOUND, "no rows"@)
                },
                Err(failure) => r is Err && is_database_error(failure, r->Err_0),
            },
            r is Ok ==> r->Ok_0.owner == owner,
    {
        match stored {
            Ok(row) => if row.owner == owner {
                Ok(row)
            } else {
                Err(Error::new(NOT_FOUND, "no rows"))
            },
            Err(failure) => Err(Error::from_database(failure)),
        }
    }

    /// Picks the owner's media with the given id out of the fetched rows:
    /// the first such row, `NotFound` where there is none.
    pub fn retrieve(fetched: Result<Vec<MediaModel>, DatabaseFailure>, owner: Id, id: Id) -> (r:
        Result<MediaModel, Error>)
        ensures
            match fetched {
                Ok(rows) => {
                    let at = media_position(rows@, owner, id, 0);
                    if at < rows@.len() {
                        r is Ok && r->Ok_0 == rows@[at]
                    } else {
                        r is Err && r->Err_0.is(NOT_FOUND, "no rows"@)
                    }
                },
                Err(failure) => r is Err && is_database_error(failure, r->Err_0),
            },
            r is Ok ==> r->Ok_0.owner == owner && r->Ok_0.id == id,
    {
        match fetched {
            Ok(rows) => {
                let at = find_media(&rows, owner, id);
                if at < rows.len() {
                    Ok(rows[at].duplicate())
                } else {
                    Err(Error::new(NOT_FOUND, "no rows"))
                }
            },
            Err(failure) => Err(Error::from_database(failure)),
        }
    }

    /// The row as an update by `owner` leaves it. Only the row's owner can
    /// update it: for anyone else the row does not exist.
    pub fn update(self, owner: Id, media: UpdateMediaSchema) -> (r: Result<MediaModel, Error>)
        ensures
            self.owner == owner ==> r is Ok && r->Ok_0 == media_updated(self, media),
            self.owner != owner ==> r is Err && r->Err_0.is(NOT_FOUND, "no rows"@),
    {
        if self.owner == owner {
            let MediaModel { id, size, content_type, owner, created_at } = self;
            let UpdateMediaSchema { size: new_size, content_type: new_type } = media;
            let size = match new_size {
                Some(n) => Some(n),
                None => size,
            };
            let content_type = match new_type {
                Some(t) => Some(t),
                None => content_type,
            };
            Ok(MediaModel { id, size, content_type, owner, created_at })
        } else {
            Err(Error::new(NOT_FOUND, "no rows"))
        }
    }

    /// The content type to serve the blob with. A pending row has no blob to
    /// serve and is reported as not found.
    pub fn served_content_type(&self) -> (r: Result<String, Error>)
        ensures
            self.finalized() ==> r is Ok && r->Ok_0 == self.content_type->Some_0,
            !self.finalized() ==> r is Err && r->Err_0.is(NOT_FOUND, "media is pending"@),
    {
        match (&self.size, &self.content_type) {
            (Some(_), Some(text)) => Ok(text.clone()),
            _ => Err(Error::new(NOT_FOUND, "media is pending")),
        }
    }
}

} // verus!
