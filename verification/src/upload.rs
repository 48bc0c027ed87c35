//! The media pipeline: reserve a metadata row, write the blob under the
//! row's id, finalize the row. The caller performs each action against the
//! stores and reports back what happened; the decisions are made here.

use crate::error::{is_database_error, DatabaseFailure, Error};
use crate::error::{INTERNAL_SERVER_ERROR, NOT_FOUND};
use crate::ident::{uuid_text, Id};
use crate::model::media::{media_position, media_updated, MediaModel, UpdateMediaSchema};
use vstd::prelude::*;
use vstd::string::*;

verus! {

/// One part of a multipart upload, as far as the pipeline reads it.
#[derive(Clone, Debug, PartialEq, Eq)]
pub struct UploadField {
    pub name: Option<String>,
    pub content_type: Option<String>,
}

/// Where one upload stands.
#[derive(Clone, Debug, PartialEq, Eq)]
pub enum UploadState {
    /// The pending row was asked for. `length` is the upload's byte count.
    Reserving { owner: Id, content_type: String, length: i64 },
    /// The row exists and the blob write was asked for.
    Writing { media: MediaModel, content_type: String, length: i64 },
    /// The blob is written and the store was asked to make the row this one.
    Finalizing { row: MediaModel },
    /// The upload has ended, in a response or in a failure.
    Done,
}

/// What the caller reports back after performing an action.
#[derive(Debug, PartialEq, Eq)]
pub enum UploadEvent {
    /// The store's answer to the insert of a pending row.
    Reserved(Result<MediaModel, DatabaseFailure>),
    /// The blob store's answer to the write: the size it reports to have
    /// stored, if it reports one, or the description of its failure.
    Written(Result<Option<i64>, String>),
    /// The store's answer to the update: the row as it now stands.
    Finalized(Result<MediaModel, DatabaseFailure>),
}

/// What the caller is to do next.
#[derive(Clone, Debug, PartialEq, Eq)]
pub enum UploadAction {
    /// Insert a pending row for this owner.
    InsertPending { owner: Id },
    /// Write the upload's bytes under this key with this content type.
    PutObject { key: String, content_type: String },
    /// Store this row's size and content type in the row of its id, if
    /// that row is its owner's.
    Finalize { row: MediaModel },
    /// Answer with the finalized media.
    Respond(MediaModel),
    /// Answer with the error. Nothing done so far is undone.
    Fail(Error),
}

/// What a download needs: the blob's key and the content type to serve it
/// with.
#[derive(Clone, Debug, PartialEq, Eq)]
pub struct Download {
    pub key: String,
    pub content_type: String,
}

/// True of the part that carries the file: the one named `file`.
pub open spec fn file_field(field: UploadField) -> bool {
    field.name matches Some(name) && name@ == "file"@
}

/// The content type that a part declares, or the default for arbitrary
/// bytes where it declares none.
pub open spec fn declared_type(field: UploadField) -> Seq<char> {
    match field.content_type {
        Some(text) => text@,
        None => "application/octet-stream"@,
    }
}

/// Index of the first part named `file` at or after `from`, or the number of
/// parts where there is none.
pub open spec fn file_position(fields: Seq<UploadField>, from: int) -> int
    decreases fields.len() - from,
{
    if from < 0 || from >= fields.len() {
        fields.len() as int
    } else if file_field(fields[from]) {
        from
    } else {
        file_position(fields, from + 1)
    }
}

/// True when a write's report agrees with the upload: the blob store says
/// nothing of the size, or says the upload's byte count.
pub open spec fn write_agrees(reported: Option<i64>, length: i64) -> bool {
    reported is None || reported == Some(length)
}

/// True when two rows hold the same size and the same content type.
pub open spec fn same_content(a: MediaModel, b: MediaModel) -> bool {
    &&& a.size == b.size
    &&& match (a.content_type, b.content_type) {
        (Some(x), Some(y)) => x@ == y@,
        (None, None) => true,
        _ => false,
    }
}

/// The row that step three asks for: the pending row with the upload's byte
/// count for its size and the declared content type.
pub open spec fn finalized_row(media: MediaModel, content_type: String, length: i64) -> MediaModel {
    media_updated(media, UpdateMediaSchema { size: Some(length), content_type: Some(content_type) })
}

/// The transition relation of an upload: `next` and `action` are what
/// follows `state` on `event`.
pub open spec fn upload_step(
    state: UploadState,
    event: UploadEvent,
    next: UploadState,
    action: UploadAction,
) -> bool {
    match (state, event) {
        (UploadState::Reserving { owner, content_type, length }, UploadEvent::Reserved(Ok(row))) => {
            if row.owner == owner {
                &&& next == (UploadState::Writing { media: row, content_type, length })
                &&& action matches UploadAction::PutObject { key, content_type: declared }
                &&& key@ == uuid_text(row.id.value)
                &&& declared == content_type
            } else {
                &&& next == UploadState::Done
                &&& action matches UploadAction::Fail(e)
                &&& e.is(NOT_FOUND, "no rows"@)
            }
        },
        (UploadState::Reserving { .. }, UploadEvent::Reserved(Err(failure))) => {
            &&& next == UploadState::Done
            &&& action matches UploadAction::Fail(e)
            &&& is_database_error(failure, e)
        },
        (UploadState::Writing { media, content_type, length }, UploadEvent::Written(Ok(reported))) => {
            if write_agrees(reported, length) {
                &&& next == (UploadState::Finalizing {
                    row: finalized_row(media, content_type, length),
                })
                &&& action == (UploadAction::Finalize {
                    row: finalized_row(media, content_type, length),
                })
            } else {
                &&& next == UploadState::Done
                &&& action matches UploadAction::Fail(e)
                &&& e.is(INTERNAL_SERVER_ERROR, "failed to upload media"@)
            }
        },
        (UploadState::Writing { .. }, UploadEvent::Written(Err(description))) => {
            &&& next == UploadState::Done
            &&& action matches UploadAction::Fail(e)
            &&& e.is(INTERNAL_SERVER_ERROR, description@)
        },
        (UploadState::Finalizing { row }, UploadEvent::Finalized(Ok(stored))) => {
            if !(stored.owner == row.owner && stored.id == row.id) {
                &&& next == UploadState::Done
                &&& action matches UploadAction::Fail(e)
                &&& e.is(NOT_FOUND, "no rows"@)
            } else if !same_content(stored, row) {
                &&& next == UploadState::Done
                &&& action matches UploadAction::Fail(e)
                &&& e.is(INTERNAL_SERVER_ERROR, "failed to upload media"@)
            } else {
                &&& next == UploadState::Done
                &&& action == UploadAction::Respond(stored)
            }
        },
        (UploadState::Finalizing { .. }, UploadEvent::Finalized(Err(failure))) => {
            &&& next == UploadState::Done
            &&& action matches UploadAction::Fail(e)
            &&& is_database_error(failure, e)
        },
        _ => {
            &&& next == UploadState::Done
            &&& action matches UploadAction::Fail(e)
            &&& e.is(INTERNAL_SERVER_ERROR, "failed to upload media"@)
        },
    }
}

fn holds_same_content(a: &MediaModel, b: &MediaModel) -> (r: bool)
    ensures
        r == same_content(*a, *b),
{
    let sizes = match (a.size, b.size) {
        (Some(x), Some(y)) => x == y,
        (None, None) => true,
        _ => false,
    };
    let types = match (&a.content_type, &b.content_type) {
        (Some(x), Some(y)) => *x == *y,
        (None, None) => true,
        _ => false,
    };
    sizes && types
}

/// True when the part is the one that carries the file.
pub fn is_file_field(field: &UploadField) -> (r: bool)
    ensures
        r == file_field(*field),
{
    match &field.name {
        Some(name) => *name == String::from_str("file"),
        None => false,
    }
}

/// The content type to store a part's bytes with.
pub fn declared_content_type(field: &UploadField) -> (r: String)
    ensures
        r@ == declared_type(*field),
{
    match &field.content_type {
        Some(text) => text.clone(),
        None => String::from_str("application/octet-stream"),
    }
}

/// Which of a request's parts is uploaded: the first one named `file`. A
/// request without such a part is a failed upload.
pub fn select_file_field(fields: &Vec<UploadField>) -> (r: Result<usize, Error>)
    ensures
        file_position(fields@, 0) < fields@.len() ==> r == Ok::<usize, Error>(
            file_position(fields@, 0) as usize,
        ),
        file_position(fields@, 0) >= fields@.len() ==> r is Err && r->Err_0.is(
            INTERNAL_SERVER_ERROR,
            "failed to upload media"@,
        ),
        r matches Ok(at) ==> at < fields@.len() && file_field(fields@[at as int]),
{
    let mut i: usize = 0;
    while i < fields.len() && !is_file_field(&fields[i])
        invariant
            i <= fields.len(),
            file_position(fields@, 0) == file_position(fields@, i as int),
        decreases fields.len() - i,
    {
        i += 1;
    }
    if i < fields.len() {
        Ok(i)
    } else {
        Err(Error::new(INTERNAL_SERVER_ERROR, "failed to upload media"))
    }
}

/// Opens an upload of `owner`: so many bytes, with a declared content type.
/// The first thing to do is to reserve the pending row.
pub fn begin_upload(owner: Id, content_type: String, length: usize) -> (r: (
    UploadState,
    UploadAction,
))
    requires
        length <= i64::MAX,
    ensures
        r.0 == (UploadState::Reserving { owner, content_type, length: length as i64 }),
        r.1 == (UploadAction::InsertPending { owner }),
{
    (
        UploadState::Reserving { owner, content_type, length: length as i64 },
        UploadAction::InsertPending { owner },
    )
}

/// Moves an upload on by one event. The steps come in a fixed order, each
/// from what the one before produced; the first failure ends the upload and
/// is what the caller sees; an event that the state does not wait for ends
/// it as well. So does a write that reports another size than the upload
/// has, and an update that leaves the row with another size or type than
/// was asked for: the answer of a finished upload is a row that holds the
/// upload's byte count and its declared type.
pub fn advance_upload(state: UploadState, event: UploadEvent) -> (r: (UploadState, UploadAction))
    ensures
        upload_step(state, event, r.0, r.1),
{
    match (state, event) {
        (UploadState::Reserving { owner, content_type, length }, UploadEvent::Reserved(stored)) => {
            match MediaModel::create(stored, owner) {
                Ok(media) => {
                    let key = media.id.to_text();
                    let declared = content_type.clone();
                    (
                        UploadState::Writing { media, content_type, length },
                        UploadAction::PutObject { key, content_type: declared },
                    )
                },
                Err(e) => (UploadState::Done, UploadAction::Fail(e)),
            }
        },
        (UploadState::Writing { media, content_type, length }, UploadEvent::Written(written)) => {
            match written {
                Ok(reported) => {
                    let agrees = match reported {
                        Some(n) => n == length,
                        None => true,
                    };
                    let owner = media.owner;
                    let update = UpdateMediaSchema {
                        size: Some(length),
                        content_type: Some(content_type),
                    };
                    match media.update(owner, update) {
                        Ok(row) => if agrees {
                            let asked = row.duplicate();
                            (UploadState::Finalizing { row }, UploadAction::Finalize { row: asked })
                        } else {
                            (UploadState::Done, UploadAction::Fail(upload_failure()))
                        },
                        Err(e) => (UploadState::Done, UploadAction::Fail(e)),
                    }
                },
                Err(description) => (
                    UploadState::Done,
                    UploadAction::Fail(Error::internal(description)),
                ),
            }
        },
        (UploadState::Finalizing { row }, UploadEvent::Finalized(answer)) => {
            match answer {
                Ok(stored) => if !(stored.owner == row.owner && stored.id == row.id) {
                    (UploadState::Done, UploadAction::Fail(Error::new(NOT_FOUND, "no rows")))
                } else if !holds_same_content(&stored, &row) {
                    (UploadState::Done, UploadAction::Fail(upload_failure()))
                } else {
                    (UploadState::Done, UploadAction::Respond(stored))
                },
                Err(failure) => (
                    UploadState::Done,
                    UploadAction::Fail(Error::from_database(failure)),
                ),
            }
        },
        _ => (UploadState::Done, UploadAction::Fail(upload_failure())),
    }
}

fn upload_failure() -> (r: Error)
    ensures
        r.is(INTERNAL_SERVER_ERROR, "failed to upload media"@),
{
    Error::new(INTERNAL_SERVER_ERROR, "failed to upload media")
}

/// What to serve for a download of `id` by `owner`: the blob under the id's
/// text, with the stored content type. Media that is absent or another
/// owner's is not found, and so is media that was never finalized.
pub fn plan_download(fetched: Result<Vec<MediaModel>, DatabaseFailure>, owner: Id, id: Id) -> (r:
    Result<Download, Error>)
    ensures
        match fetched {
            Ok(rows) => {
                let at = media_position(rows@, owner, id, 0);
                if at >= rows@.len() {
                    r is Err && r->Err_0.is(NOT_FOUND, "no rows"@)
                } else if !rows@[at].finalized() {
                    r is Err && r->Err_0.is(NOT_FOUND, "media is pending"@)
                } else {
                    &&& r is Ok
                    &&& r->Ok_0.key@ == uuid_text(id.value)
                    &&& r->Ok_0.content_type == rows@[at].content_type->Some_0
                }
            },
            Err(failure) => r is Err && is_database_error(failure, r->Err_0),
        },
{
    match MediaModel::retrieve(fetched, owner, id) {
        Ok(media) => match media.served_content_type() {
            Ok(content_type) => Ok(Download { key: media.id.to_text(), content_type }),
            Err(e) => Err(e),
        },
        Err(e) => Err(e),
    }
}

/// An upload succeeds where nothing fails: when the pending row is the
/// owner's, the write agrees with the upload, and the store answers the
/// update with the row of that id and owner that holds what was asked for,
/// then the upload ends in that row.
pub proof fn lemma_upload_succeeds(
    owner: Id,
    content_type: String,
    length: i64,
    pending: MediaModel,
    reported: Option<i64>,
    stored: MediaModel,
    s1: UploadState,
    a1: UploadAction,
    s2: UploadState,
    a2: UploadAction,
    s3: UploadState,
    a3: UploadAction,
)
    requires
        pending.owner == owner,
        write_agrees(reported, length),
        stored.owner == owner,
        stored.id == pending.id,
        same_content(stored, finalized_row(pending, content_type, length)),
        upload_step(
            UploadState::Reserving { owner, content_type, length },
            UploadEvent::Reserved(Ok(pending)),
            s1,
            a1,
        ),
        upload_step(s1, UploadEvent::Written(Ok(reported)), s2, a2),
        upload_step(s2, UploadEvent::Finalized(Ok(stored)), s3, a3),
    ensures
        a1 matches UploadAction::PutObject { key, content_type: declared } && key@ == uuid_text(
            pending.id.value,
        ) && declared == content_type,
        a2 == (UploadAction::Finalize { row: finalized_row(pending, content_type, length) }),
        a3 == UploadAction::Respond(stored),
        s3 == UploadState::Done,
{
}

/// What a finished upload leaves: whatever the stores answered on the way,
/// an upload that ends in a response ends in a row of the owner that holds
/// the upload's byte count and its declared content type, so a row that is
/// finalized and that a download by the owner finds and serves.
pub proof fn lemma_finished_upload_is_served(
    owner: Id,
    content_type: String,
    length: i64,
    e1: UploadEvent,
    e2: UploadEvent,
    e3: UploadEvent,
    s1: UploadState,
    a1: UploadAction,
    s2: UploadState,
    a2: UploadAction,
    s3: UploadState,
    a3: UploadAction,
)
    requires
        upload_step(UploadState::Reserving { owner, content_type, length }, e1, s1, a1),
        upload_step(s1, e2, s2, a2),
        upload_step(s2, e3, s3, a3),
        a3 is Respond,
    ensures
        a3->Respond_0.owner == owner,
        a3->Respond_0.size == Some(length),
        a3->Respond_0.content_type matches Some(text) && text@ == content_type@,
        a3->Respond_0.finalized(),
        media_position(seq![a3->Respond_0], owner, a3->Respond_0.id, 0) == 0,
        e1 matches UploadEvent::Reserved(Ok(pending)) && a3->Respond_0.id == pending.id && a1
            is PutObject && a1->PutObject_key@ == uuid_text(pending.id.value),
{
}

/// A row that is finalized with a size and a declared type holds exactly
/// these afterwards, and is no longer pending.
pub proof fn lemma_finalize_sets_both(row: MediaModel, size: i64, content_type: String)
    ensures
        finalized_row(row, content_type, size).finalized(),
        finalized_row(row, content_type, size).size == Some(size),
        finalized_row(row, content_type, size).content_type == Some(content_type),
        finalized_row(row, content_type, size).owner == row.owner,
        finalized_row(row, content_type, size).id == row.id,
{
}

} // verus!
