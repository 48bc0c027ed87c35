use tapster_api::error::{DatabaseFailure, Error, JwtFailure};
use tapster_api::header::header_text;
use tapster_api::ident::{Id, Timestamp};
use tapster_api::misc::healthcheck;
use tapster_api::text::normalize_name;
use tapster_api::MEDIA_BUCKET;

fn db(code: Option<&str>) -> DatabaseFailure {
    match code {
        Some(code) => DatabaseFailure::Code(code.to_string()),
        None => DatabaseFailure::Other("connection reset".to_string()),
    }
}

#[test]
fn missing_row_is_not_found() {
    let e = Error::from_database(DatabaseFailure::MissingRow);
    assert_eq!((e.status_code(), e.message()), (404, "no rows"));
}

#[test]
fn new_keeps_status_and_message() {
    let e = Error::new(418, "teapot");
    assert_eq!(e.status_code(), 418);
    assert_eq!(e.message(), "teapot");
}

#[test]
fn database_codes_map_to_their_kinds() {
    let cases = [
        ("02000", 404, "no rows"),
        ("23502", 400, "not null violation"),
        ("23503", 404, "foreign key violation"),
        ("23505", 409, "unique violation"),
        ("23514", 400, "check violation"),
    ];
    for (code, status, message) in cases {
        let e = Error::from_database(db(Some(code)));
        assert_eq!((e.status_code(), e.message()), (status, message));
    }
}

#[test]
fn unknown_database_code_is_internal_and_names_the_code() {
    let e = Error::from_database(db(Some("42P01")));
    assert_eq!((e.status_code(), e.message()), (500, "unknown error code: 42P01"));
}

#[test]
fn database_failure_without_code_carries_its_description() {
    let e = Error::from_database(db(None));
    assert_eq!((e.status_code(), e.message()), (500, "connection reset"));
}

#[test]
fn jwt_failures_map_to_their_kinds() {
    for kind in [JwtFailure::Json, JwtFailure::Utf8, JwtFailure::Base64, JwtFailure::Crypto] {
        let e = Error::from_jwt_failure(kind);
        assert_eq!((e.status_code(), e.message()), (500, "failed to parse jwt"));
    }
    let e = Error::from_jwt_failure(JwtFailure::Other);
    assert_eq!((e.status_code(), e.message()), (400, "invalid jwt"));
}

#[test]
fn internal_carries_the_description() {
    let e = Error::internal("dispatch failure".to_string());
    assert_eq!((e.status_code(), e.message()), (500, "dispatch failure"));
}

#[test]
fn id_text_is_hyphenated_lower_case() {
    let id = Id::from_u128(0x550E8400_E29B_41D4_A716_446655440000);
    assert_eq!(id.to_text(), "550e8400-e29b-41d4-a716-446655440000");
    assert_eq!(Id::from_u128(42).to_text(), "00000000-0000-0000-0000-00000000002a");
}

#[test]
fn id_parses_each_notation() {
    let want = Some(Id::from_u128(0x550e8400_e29b_41d4_a716_446655440000));
    assert_eq!(Id::parse("550e8400-e29b-41d4-a716-446655440000"), want);
    assert_eq!(Id::parse("550E8400E29B41D4A716446655440000"), want);
    assert_eq!(Id::parse("{550e8400-e29b-41d4-a716-446655440000}"), want);
    assert_eq!(Id::parse("urn:uuid:550e8400-e29b-41d4-a716-446655440000"), want);
    assert_eq!(Id::parse("550e8400"), None);
    assert_eq!(Id::parse(""), None);
}

#[test]
fn id_text_parses_back() {
    for value in [0u128, 1, u128::MAX, 0x0123_4567_89ab_cdef_0123_4567_89ab_cdef] {
        let id = Id::from_u128(value);
        assert_eq!(Id::parse(&id.to_text()), Some(id));
    }
}

#[test]
fn timestamp_moves_forward() {
    let t = Timestamp { secs: 10, nanos: 7 };
    assert_eq!(t.plus_seconds(5), Timestamp { secs: 15, nanos: 7 });
    assert_eq!(t.plus_seconds(-20), Timestamp { secs: -10, nanos: 7 });
}

#[test]
fn clock_is_past_the_year_2020() {
    let now = Timestamp::now();
    assert!(now.secs > 1_577_836_800);
    assert!(now.nanos < 1_000_000_000);
    let day = now.secs.div_euclid(86_400) + 719_163;
    assert!(day >= i32::MIN as i64 && day <= i32::MAX as i64);
    assert!(now.secs.checked_add(1_209_600).is_some());
}

#[test]
fn names_are_stored_in_lower_case() {
    assert_eq!(normalize_name("Vodka"), "vodka");
    assert_eq!(normalize_name("GIN & Tonic"), "gin & tonic");
    assert_eq!(normalize_name("already"), "already");
}

#[test]
fn healthcheck_reports_ok() {
    let h = healthcheck();
    assert_eq!(h.status, "OK");
    assert_eq!(h.service, "tapster-api");
}

#[test]
fn media_bucket_name() {
    assert_eq!(MEDIA_BUCKET, "tapsters-media");
}

#[test]
fn header_text_accepts_visible_ascii_only() {
    assert_eq!(header_text(b"Bearer abc~".to_vec()), Some("Bearer abc~".to_string()));
    assert_eq!(header_text(b"a\tb".to_vec()), Some("a\tb".to_string()));
    assert_eq!(header_text(Vec::new()), Some(String::new()));
    assert_eq!(header_text(b"a\x7fb".to_vec()), None);
    assert_eq!(header_text(b"a\x1fb".to_vec()), None);
    assert_eq!(header_text(b"caf\xc3\xa9".to_vec()), None);
    assert_eq!(header_text(vec![0x80]), None);
}
