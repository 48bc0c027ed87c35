use tapster_api::error::DatabaseFailure;
use tapster_api::ident::{Id, Timestamp};
use tapster_api::model::{MediaModel, UpdateMediaSchema};
use tapster_api::upload::{
    advance_upload, begin_upload, declared_content_type, is_file_field, plan_download,
    select_file_field, Download, UploadAction, UploadEvent, UploadField, UploadState,
};

fn id(v: u128) -> Id {
    Id::from_u128(v)
}

fn pending(v: u128, owner: u128) -> MediaModel {
    MediaModel {
        id: id(v),
        size: None,
        content_type: None,
        owner: id(owner),
        created_at: Timestamp { secs: 1, nanos: 0 },
    }
}

fn field(name: Option<&str>, content_type: Option<&str>) -> UploadField {
    UploadField { name: name.map(|s| s.to_string()), content_type: content_type.map(|s| s.to_string()) }
}

fn fail_of(action: UploadAction) -> (u16, String) {
    match action {
        UploadAction::Fail(e) => (e.status_code(), e.message().to_string()),
        other => panic!("expected a failure, got {:?}", other),
    }
}

fn stored_row(v: u128, owner: u128, size: i64, content_type: &str) -> MediaModel {
    MediaModel {
        id: id(v),
        size: Some(size),
        content_type: Some(content_type.to_string()),
        owner: id(owner),
        created_at: Timestamp { secs: 2, nanos: 0 },
    }
}

fn upload_until_finalize(reported: Option<i64>, length: usize) -> (UploadState, UploadAction) {
    let (state, _) = begin_upload(id(1), "image/png".to_string(), length);
    let (state, _) = advance_upload(state, UploadEvent::Reserved(Ok(pending(42, 1))));
    advance_upload(state, UploadEvent::Written(Ok(reported)))
}

#[test]
fn upload_round_trip() {
    let bytes = b"\x89PNG....".to_vec();
    let declared = "image/png".to_string();

    let (state, action) = begin_upload(id(1), declared.clone(), bytes.len());
    assert_eq!(action, UploadAction::InsertPending { owner: id(1) });
    assert_eq!(
        state,
        UploadState::Reserving { owner: id(1), content_type: declared.clone(), length: 8 }
    );

    let (state, action) = advance_upload(state, UploadEvent::Reserved(Ok(pending(42, 1))));
    assert_eq!(
        action,
        UploadAction::PutObject {
            key: "00000000-0000-0000-0000-00000000002a".to_string(),
            content_type: declared.clone(),
        }
    );
    assert_eq!(
        state,
        UploadState::Writing { media: pending(42, 1), content_type: declared.clone(), length: 8 }
    );

    let (state, action) = advance_upload(state, UploadEvent::Written(Ok(Some(8))));
    let update = UpdateMediaSchema { size: Some(8), content_type: Some(declared.clone()) };
    let asked = pending(42, 1).update(id(1), update).unwrap();
    assert_eq!(action, UploadAction::Finalize { row: asked.clone() });
    assert_eq!(state, UploadState::Finalizing { row: asked });

    let stored = stored_row(42, 1, 8, "image/png");
    let (state, action) = advance_upload(state, UploadEvent::Finalized(Ok(stored.clone())));
    assert_eq!(state, UploadState::Done);
    assert_eq!(action, UploadAction::Respond(stored.clone()));
    assert_eq!(stored.size, Some(bytes.len() as i64));
    assert_eq!(stored.content_type, Some(declared.clone()));

    let download = plan_download(Ok(vec![stored]), id(1), id(42)).unwrap();
    assert_eq!(
        download,
        Download { key: "00000000-0000-0000-0000-00000000002a".to_string(), content_type: declared }
    );
}

#[test]
fn upload_whose_write_reports_no_size_is_served_afterwards() {
    let (state, action) = upload_until_finalize(None, 5);
    let asked = match action {
        UploadAction::Finalize { row } => row,
        other => panic!("expected a finalize request, got {:?}", other),
    };
    assert_eq!(asked.size, Some(5));
    assert_eq!(asked.content_type, Some("image/png".to_string()));
    assert_eq!((asked.id, asked.owner), (id(42), id(1)));
    assert!(asked.is_finalized());

    let (state, action) = advance_upload(state, UploadEvent::Finalized(Ok(asked.clone())));
    assert_eq!(state, UploadState::Done);
    assert_eq!(action, UploadAction::Respond(asked.clone()));

    let download = plan_download(Ok(vec![asked]), id(1), id(42)).unwrap();
    assert_eq!(download.content_type, "image/png");
    assert_eq!(download.key, "00000000-0000-0000-0000-00000000002a");
}

#[test]
fn empty_upload_is_finalized_with_size_zero() {
    let (state, action) = upload_until_finalize(None, 0);
    let asked = stored_row(42, 1, 0, "image/png");
    match &action {
        UploadAction::Finalize { row } => assert_eq!(row.size, Some(0)),
        other => panic!("expected a finalize request, got {:?}", other),
    }
    let (_, action) = advance_upload(state, UploadEvent::Finalized(Ok(asked.clone())));
    assert_eq!(action, UploadAction::Respond(asked.clone()));
    assert!(plan_download(Ok(vec![asked]), id(1), id(42)).is_ok());
}

#[test]
fn write_that_reports_another_size_fails_the_upload() {
    let (state, action) = upload_until_finalize(Some(4), 5);
    assert_eq!(state, UploadState::Done);
    assert_eq!(fail_of(action), (500, "failed to upload media".to_string()));
}

#[test]
fn update_that_leaves_other_content_fails_the_upload() {
    let (state, _) = upload_until_finalize(Some(5), 5);
    let (_, action) = advance_upload(state, UploadEvent::Finalized(Ok(pending(42, 1))));
    assert_eq!(fail_of(action), (500, "failed to upload media".to_string()));

    let (state, _) = upload_until_finalize(Some(5), 5);
    let other_size = stored_row(42, 1, 6, "image/png");
    let (_, action) = advance_upload(state, UploadEvent::Finalized(Ok(other_size)));
    assert_eq!(fail_of(action), (500, "failed to upload media".to_string()));

    let (state, _) = upload_until_finalize(Some(5), 5);
    let other_type = stored_row(42, 1, 5, "image/gif");
    let (_, action) = advance_upload(state, UploadEvent::Finalized(Ok(other_type)));
    assert_eq!(fail_of(action), (500, "failed to upload media".to_string()));
}

#[test]
fn failed_insert_ends_the_upload_before_any_write() {
    let (state, _) = begin_upload(id(1), "image/png".to_string(), 3);
    let failure = DatabaseFailure::Code("23503".to_string());
    let (state, action) = advance_upload(state, UploadEvent::Reserved(Err(failure)));
    assert_eq!(state, UploadState::Done);
    assert_eq!(fail_of(action), (404, "foreign key violation".to_string()));
}

#[test]
fn row_of_another_owner_ends_the_upload() {
    let (state, _) = begin_upload(id(1), "image/png".to_string(), 3);
    let (state, action) = advance_upload(state, UploadEvent::Reserved(Ok(pending(42, 2))));
    assert_eq!(state, UploadState::Done);
    assert_eq!(fail_of(action), (404, "no rows".to_string()));
}

#[test]
fn failed_write_is_surfaced_and_not_compensated() {
    let (state, _) = begin_upload(id(1), "image/png".to_string(), 3);
    let (state, _) = advance_upload(state, UploadEvent::Reserved(Ok(pending(42, 1))));
    let (state, action) = advance_upload(state, UploadEvent::Written(Err("timeout".to_string())));
    assert_eq!(state, UploadState::Done);
    assert_eq!(fail_of(action), (500, "timeout".to_string()));
}

#[test]
fn failed_finalize_is_surfaced() {
    let (state, _) = upload_until_finalize(None, 3);
    let failure = DatabaseFailure::Other("gone".to_string());
    let (state, action) = advance_upload(state, UploadEvent::Finalized(Err(failure)));
    assert_eq!(state, UploadState::Done);
    assert_eq!(fail_of(action), (500, "gone".to_string()));
    let (state, _) = upload_until_finalize(None, 3);
    let (_, action) = advance_upload(state, UploadEvent::Finalized(Err(DatabaseFailure::MissingRow)));
    assert_eq!(fail_of(action), (404, "no rows".to_string()));
}

#[test]
fn finalize_of_a_foreign_row_is_not_found() {
    let (state, _) = upload_until_finalize(None, 3);
    let (_, action) = advance_upload(state, UploadEvent::Finalized(Ok(stored_row(42, 2, 3, "image/png"))));
    assert_eq!(fail_of(action), (404, "no rows".to_string()));
    let (state, _) = upload_until_finalize(None, 3);
    let (_, action) = advance_upload(state, UploadEvent::Finalized(Ok(stored_row(43, 1, 3, "image/png"))));
    assert_eq!(fail_of(action), (404, "no rows".to_string()));
}

#[test]
fn out_of_order_event_ends_the_upload() {
    let (state, _) = begin_upload(id(1), "image/png".to_string(), 3);
    let (state, action) = advance_upload(state, UploadEvent::Written(Ok(Some(3))));
    assert_eq!(state, UploadState::Done);
    assert_eq!(fail_of(action), (500, "failed to upload media".to_string()));
    let (state, action) = advance_upload(UploadState::Done, UploadEvent::Reserved(Ok(pending(1, 1))));
    assert_eq!(state, UploadState::Done);
    assert_eq!(fail_of(action), (500, "failed to upload media".to_string()));
}

#[test]
fn file_field_is_found_by_name() {
    assert!(is_file_field(&field(Some("file"), None)));
    assert!(!is_file_field(&field(Some("File"), None)));
    assert!(!is_file_field(&field(Some("files"), None)));
    assert!(!is_file_field(&field(None, Some("image/png"))));
    let fields =
        vec![field(Some("note"), None), field(None, None), field(Some("file"), None), field(Some("file"), None)];
    assert_eq!(select_file_field(&fields).unwrap(), 2);
}

#[test]
fn upload_without_file_field_fails() {
    let e = select_file_field(&vec![field(Some("note"), None)]).unwrap_err();
    assert_eq!((e.status_code(), e.message()), (500, "failed to upload media"));
    let e = select_file_field(&vec![]).unwrap_err();
    assert_eq!((e.status_code(), e.message()), (500, "failed to upload media"));
}

#[test]
fn content_type_defaults_to_octet_stream() {
    assert_eq!(declared_content_type(&field(Some("file"), None)), "application/octet-stream");
    assert_eq!(declared_content_type(&field(Some("file"), Some("image/jpeg"))), "image/jpeg");
}

#[test]
fn download_of_pending_media_is_not_found() {
    let e = plan_download(Ok(vec![pending(42, 1)]), id(1), id(42)).unwrap_err();
    assert_eq!((e.status_code(), e.message()), (404, "media is pending"));
}

#[test]
fn download_of_foreign_or_absent_media_is_not_found() {
    let e = plan_download(Ok(vec![pending(42, 2)]), id(1), id(42)).unwrap_err();
    assert_eq!((e.status_code(), e.message()), (404, "no rows"));
    let e = plan_download(Ok(vec![]), id(1), id(42)).unwrap_err();
    assert_eq!((e.status_code(), e.message()), (404, "no rows"));
    let failure = DatabaseFailure::Code("23505".to_string());
    let e = plan_download(Err(failure), id(1), id(42)).unwrap_err();
    assert_eq!((e.status_code(), e.message()), (409, "unique violation"));
}
