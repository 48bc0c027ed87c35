//! Bearer tokens that bind a caller to a user, and the owner of a request.

use crate::error::{jwt_failure_is_internal, Error, JwtFailure};
use crate::error::{BAD_REQUEST, INTERNAL_SERVER_ERROR, UNAUTHORIZED};
use crate::header::{first_value, first_values, header_text, is_text, text_of};
use crate::ident::{day_number, uuid_parse, uuid_text, Id, Timestamp};
use crate::model::user::UserModel;
use jsonwebtoken::errors::ErrorKind;
use vstd::prelude::*;
use vstd::string::*;

verus! {

/// How long a token stays valid: fourteen days, in seconds.
pub const TOKEN_LIFETIME_SECONDS: i64 = 1_209_600;

/// An issued credential: the signed token and the instant it expires.
#[derive(Clone, Debug, PartialEq, Eq)]
pub struct Auth {
    pub access_key: String,
    pub expiration: Timestamp,
}

/// The two claims of a verified token as they were found in its payload:
/// `exp` where it is an integer, `sub` where it is a text.
#[derive(Clone, Debug, PartialEq, Eq)]
pub struct RawClaims {
    pub exp: Option<i64>,
    pub sub: Option<String>,
}

/// The `Authorization` header of a request.
#[derive(Clone, Debug, PartialEq, Eq)]
pub enum HeaderField {
    /// The request carries no such header.
    Absent,
    /// The header is there and its value is not visible text.
    Opaque,
    /// The header's value.
    Text(String),
}

/// The HS256-signed token that `jsonwebtoken::encode` makes for a secret and
/// the claims `exp` and `sub`.
pub uninterp spec fn hs256_token(secret: Seq<char>, sub: Seq<char>, exp: int) -> Seq<char>;

/// Calls `jsonwebtoken::encode` with an HS256 header, the claims `exp` and
/// `sub` and the secret as the key. The token depends on these alone, and
/// the contract names it. It also claims that a token comes back: with a
/// secret for a key, this header and these two claims, the crate's source
/// has no path that fails. And it claims the token's shape, as the source
/// joins it: header, payload and signature with a dot between each.
#[verifier::external_body]
pub(crate) fn sign_claims(secret: &str, sub: &str, exp: i64) -> (r: Result<String, JwtFailure>)
    ensures
        r is Ok,
        r matches Ok(token) ==> token@ == hs256_token(secret@, sub@, exp as int),
        r matches Ok(token) ==> has_three_parts(token@),
{
    let mut claims = serde_json::Map::new();
    claims.insert("exp".to_string(), serde_json::Value::from(exp));
    claims.insert("sub".to_string(), serde_json::Value::from(sub));
    let key = jsonwebtoken::EncodingKey::from_secret(secret.as_bytes());
    let header = jsonwebtoken::Header::new(jsonwebtoken::Algorithm::HS256);
    jsonwebtoken::encode(&header, &claims, &key).map_err(|e| match e.kind() {
        ErrorKind::Json(_) => JwtFailure::Json,
        ErrorKind::Utf8(_) => JwtFailure::Utf8,
        ErrorKind::Base64(_) => JwtFailure::Base64,
        ErrorKind::Crypto(_) => JwtFailure::Crypto,
        _ => JwtFailure::Other,
    })
}

/// What `jsonwebtoken::decode` makes of a token under a secret when the
/// expiry is left aside: the two claims of the payload as they stand there,
/// `exp` where it is an integer and `sub` where it is a text, or the kind of
/// its failure.
pub uninterp spec fn token_reading(secret: Seq<char>, token: Seq<char>) -> Result<
    (Option<i64>, Option<Seq<char>>),
    JwtFailure,
>;

/// Calls `jsonwebtoken::decode` with the secret as the key and the default
/// validation for HS256, but with the expiry left to the caller. Without
/// the expiry the call reads no clock, so its outcome depends on secret and
/// token alone, and the contract names it. One more thing is claimed, which
/// the crate's source shows before it reads the key: a text that the last
/// two dots do not cut into three parts is refused as an invalid token.
#[verifier::external_body]
pub(crate) fn read_token(secret: &str, token: &str) -> (r: Result<RawClaims, JwtFailure>)
    ensures
        reading_of(r) == token_reading(secret@, token@),
        !has_three_parts(token@) ==> r is Err && r->Err_0 == JwtFailure::Other,
{
    let key = jsonwebtoken::DecodingKey::from_secret(secret.as_bytes());
    let mut rules = jsonwebtoken::Validation::default();
    rules.validate_exp = false;
    let read = jsonwebtoken::decode::<serde_json::Value>(token, &key, &rules);
    let data = read.map_err(|e| match e.kind() {
        ErrorKind::Json(_) => JwtFailure::Json,
        ErrorKind::Utf8(_) => JwtFailure::Utf8,
        ErrorKind::Base64(_) => JwtFailure::Base64,
        ErrorKind::Crypto(_) => JwtFailure::Crypto,
        _ => JwtFailure::Other,
    })?;
    let exp = data.claims.get("exp").and_then(|v| v.as_i64());
    let sub = data.claims.get("sub").and_then(|v| v.as_str()).map(|s| s.to_string());
    Ok(RawClaims { exp, sub })
}

/// A verification's outcome as plain values.
pub open spec fn reading_of(outcome: Result<RawClaims, JwtFailure>) -> Result<
    (Option<i64>, Option<Seq<char>>),
    JwtFailure,
> {
    match outcome {
        Ok(claims) => Ok(
            (
                claims.exp,
                match claims.sub {
                    Some(text) => Some(text@),
                    None => None,
                },
            ),
        ),
        Err(kind) => Err(kind),
    }
}

/// The subject that two claims name: `sub` read as an identifier, where both
/// claims have their expected shape.
pub open spec fn subject_in(exp: Option<i64>, sub: Option<Seq<char>>) -> Option<Id> {
    if exp is Some && sub is Some {
        match uuid_parse(sub->Some_0) {
            Some(v) => Some(Id { value: v }),
            None => None,
        }
    } else {
        None
    }
}

/// True of an expiry that has elapsed at `now`. There is no grace: the
/// second after its expiry a token is refused.
pub open spec fn elapsed(exp: Option<i64>, now: Timestamp) -> bool {
    exp matches Some(at) && at < now.secs
}

/// True when `r` is what verification at `now` gives for a reading: the
/// failure's error where the reading failed, a bad request where the expiry
/// has elapsed, else the subject, or an internal error where the claims do
/// not have their shape.
pub open spec fn judged(
    reading: Result<(Option<i64>, Option<Seq<char>>), JwtFailure>,
    now: Timestamp,
    r: Result<Id, Error>,
) -> bool {
    match reading {
        Err(kind) => r is Err && if jwt_failure_is_internal(kind) {
            r->Err_0.is(INTERNAL_SERVER_ERROR, "failed to parse jwt"@)
        } else {
            r->Err_0.is(BAD_REQUEST, "invalid jwt"@)
        },
        Ok((exp, sub)) => if elapsed(exp, now) {
            r is Err && r->Err_0.is(BAD_REQUEST, "invalid jwt"@)
        } else {
            match subject_in(exp, sub) {
                Some(id) => r == Ok::<Id, Error>(id),
                None => r is Err && r->Err_0.is(INTERNAL_SERVER_ERROR, "failed to parse jwt"@),
            }
        },
    }
}

/// A token that is not validly signed, or whose expiry has elapsed by as
/// little as a second, is refused, whichever of the two it is.
pub proof fn lemma_elapsed_or_unsigned_fails(
    reading: Result<(Option<i64>, Option<Seq<char>>), JwtFailure>,
    now: Timestamp,
    r: Result<Id, Error>,
)
    requires
        judged(reading, now, r),
        reading is Err || (reading matches Ok(claims) && claims.0 matches Some(at) && at < now.secs),
    ensures
        r is Err,
        is_token_error(r->Err_0),
{
}

/// Claims that name a user are accepted up to and including the second of
/// their expiry, and give that user's id.
pub proof fn lemma_unexpired_claims_give_the_user(
    claims: RawClaims,
    user: Id,
    now: Timestamp,
    r: Result<Id, Error>,
)
    requires
        claims_subject(claims) == Some(user),
        claims.exp matches Some(at) && now.secs <= at,
        judged(reading_of(Ok(claims)), now, r),
    ensures
        r == Ok::<Id, Error>(user),
{
}

/// True of the characters that separate the segments of a header value:
/// the ASCII whitespace.
pub open spec fn is_blank(c: char) -> bool {
    c == ' ' || c == '\t' || c == '\n' || c == '\r' || c == '\x0C'
}

/// Index of the first character at or after `from` that is blank, where
/// `blank` is set, or that is not, where it is not; the length of the text
/// where there is none.
pub open spec fn next_where(s: Seq<char>, from: int, blank: bool) -> int
    decreases s.len() - from,
{
    if from < 0 || from >= s.len() {
        s.len() as int
    } else if is_blank(s[from]) == blank {
        from
    } else {
        next_where(s, from + 1, blank)
    }
}

/// Where the segment that covers `from` ends: at the next blank, or with the
/// text.
pub open spec fn segment_end(s: Seq<char>, from: int) -> int {
    next_where(s, from, true)
}

/// Where the next segment at or after `from` starts: at the next character
/// that is not blank, or nowhere in the text.
pub open spec fn segment_start(s: Seq<char>, from: int) -> int {
    next_where(s, from, false)
}

/// The second of the segments that whitespace cuts a text into, if there are
/// two. Segments are never empty: blanks in a row separate once, and blanks
/// at either end separate nothing.
pub open spec fn second_segment(s: Seq<char>) -> Option<Seq<char>> {
    let first = segment_start(s, 0);
    let second = segment_start(s, segment_end(s, first));
    if second >= s.len() {
        None
    } else {
        Some(s.subrange(second, segment_end(s, second)))
    }
}

/// The subject that a payload names: its `sub` read as an identifier, where
/// both claims have their expected shape.
pub open spec fn claims_subject(claims: RawClaims) -> Option<Id> {
    subject_in(
        claims.exp,
        match claims.sub {
            Some(text) => Some(text@),
            None => None,
        },
    )
}

/// The bytes of a request's `Authorization` value, if it has one.
pub open spec fn authorization_bytes(header: axum::http::HeaderMap) -> Option<Seq<u8>> {
    if first_values(header).contains_key("authorization"@) {
        Some(first_values(header)["authorization"@])
    } else {
        None
    }
}

/// True when `field` is the reading of an `Authorization` value: absent
/// where there is none, opaque where its bytes are not all visible ASCII,
/// and else its text.
pub open spec fn is_reading_of(value: Option<Seq<u8>>, field: HeaderField) -> bool {
    match value {
        None => field is Absent,
        Some(bytes) => if is_text(bytes) {
            field matches HeaderField::Text(text) && text@ == text_of(bytes)
        } else {
            field is Opaque
        },
    }
}

/// True of the two errors that a failed verification can end in.
pub open spec fn is_token_error(e: Error) -> bool {
    e.is(INTERNAL_SERVER_ERROR, "failed to parse jwt"@) || e.is(BAD_REQUEST, "invalid jwt"@)
}

/// `next_where` stops at the first character of the wanted kind: it lies in
/// range, nothing before it is of that kind, and it is itself unless the
/// text ran out.
pub proof fn lemma_next_where(s: Seq<char>, from: int, blank: bool)
    requires
        0 <= from <= s.len(),
    ensures
        from <= next_where(s, from, blank) <= s.len(),
        forall|k: int| from <= k < next_where(s, from, blank) ==> is_blank(s[k]) != blank,
        next_where(s, from, blank) < s.len() ==> is_blank(s[next_where(s, from, blank)]) == blank,
    decreases s.len() - from,
{
    if from < s.len() && is_blank(s[from]) != blank {
        lemma_next_where(s, from + 1, blank);
    }
}

/// A second segment is never empty and holds no blank; a text without a
/// blank between two other characters has none, so a lone word has none,
/// with or without blanks around it.
pub proof fn lemma_second_segment(s: Seq<char>)
    ensures
        second_segment(s) matches Some(t) ==> t.len() > 0 && forall|k: int|
            0 <= k < t.len() ==> !is_blank(#[trigger] t[k]),
        second_segment(s) is Some ==> exists|i: int, j: int, k: int|
            0 <= i < j < k < s.len() && !is_blank(#[trigger] s[i]) && is_blank(#[trigger] s[j])
                && !is_blank(#[trigger] s[k]),
{
    lemma_next_where(s, 0, false);
    let first = segment_start(s, 0);
    lemma_next_where(s, first, true);
    let gap = segment_end(s, first);
    lemma_next_where(s, gap, false);
    let second = segment_start(s, gap);
    if second < s.len() {
        lemma_next_where(s, second, true);
        let t = s.subrange(second, segment_end(s, second));
        assert forall|k: int| 0 <= k < t.len() implies !is_blank(#[trigger] t[k]) by {
            assert(t[k] == s[second + k]);
        }
        assert(!is_blank(s[first]) && is_blank(s[gap]) && !is_blank(s[second]));
        assert(first < gap < second);
    }
}

fn is_blank_at(text: &str, i: usize, ascii: bool) -> (r: bool)
    requires
        i < text@.len(),
        ascii ==> text.is_ascii(),
    ensures
        r == is_blank(text@[i as int]),
{
    if ascii {
        let b = text.get_ascii(i);
        b == 32 || b == 9 || b == 10 || b == 13 || b == 12
    } else {
        let c = text.get_char(i);
        c == ' ' || c == '\t' || c == '\n' || c == '\r' || c == '\x0C'
    }
}

fn find_where(text: &str, from: usize, len: usize, ascii: bool, blank: bool) -> (r: usize)
    requires
        from <= len,
        len == text@.len(),
        ascii ==> text.is_ascii(),
    ensures
        r == next_where(text@, from as int, blank),
        from <= r <= len,
{
    let mut i: usize = from;
    while i < len && is_blank_at(text, i, ascii) != blank
        invariant
            from <= i <= len,
            len == text@.len(),
            ascii ==> text.is_ascii(),
            next_where(text@, from as int, blank) == next_where(text@, i as int, blank),
        decreases len - i,
    {
        i += 1;
    }
    i
}

/// The credential in an `Authorization` value: the second of its
/// whitespace-separated segments. The scheme word before it is not looked
/// at.
pub fn bearer_token(text: &str) -> (r: Option<String>)
    ensures
        match second_segment(text@) {
            Some(t) => r is Some && r->Some_0@ == t,
            None => r is None,
        },
{
    let ascii = text.is_ascii();
    let len = if ascii {
        text.as_bytes().len()
    } else {
        text.unicode_len()
    };
    proof {
        if ascii {
            is_ascii_spec_bytes(text);
            assert(text.spec_bytes().len() == text@.len());
        }
    }
    let first = find_where(text, 0, len, ascii, false);
    let gap = find_where(text, first, len, ascii, true);
    let second = find_where(text, gap, len, ascii, false);
    if second >= len {
        return None;
    }
    let end = find_where(text, second, len, ascii, true);
    let token = if ascii {
        text.substring_ascii(second, end)
    } else {
        text.substring_char(second, end)
    };
    Some(token.to_owned())
}

/// The claims of a token for `user` that expires at `expiration`. Read back
/// from a verified token, they name that user again.
pub fn claims_for(user: UserModel, expiration: Timestamp) -> (r: RawClaims)
    ensures
        r.exp == Some(expiration.secs),
        r.sub matches Some(text) && text@ == uuid_text(user.id.value),
        claims_subject(r) == Some(user.id),
{
    RawClaims { exp: Some(expiration.secs), sub: Some(user.id.to_text()) }
}

impl Auth {
    /// Issues a token for a user at a given instant: it names the user as its
    /// subject and expires fourteen days later. A token always comes back.
    pub fn create_at(signing_key: &str, user: UserModel, now: Timestamp) -> (r: Result<Auth, Error>)
        requires
            now.secs + TOKEN_LIFETIME_SECONDS <= i64::MAX,
        ensures
            r is Ok,
            r->Ok_0.access_key@ == hs256_token(
                signing_key@,
                uuid_text(user.id.value),
                now.secs + TOKEN_LIFETIME_SECONDS,
            ),
            r->Ok_0.expiration == (Timestamp {
                secs: (now.secs + TOKEN_LIFETIME_SECONDS) as i64,
                nanos: now.nanos,
            }),
            has_three_parts(r->Ok_0.access_key@),
    {
        let expiration = now.plus_seconds(TOKEN_LIFETIME_SECONDS);
        let subject = user.id.to_text();
        match sign_claims(signing_key, subject.as_str(), expiration.secs) {
            Ok(access_key) => Ok(Auth { access_key, expiration }),
            Err(kind) => Err(Error::from_jwt_failure(kind)),
        }
    }

    /// Issues a token for a user now: the token signed for this user and an
    /// expiry fourteen days after an instant that the clock handed out. A
    /// token always comes back.
    pub fn create(signing_key: &str, user: UserModel) -> (r: Result<Auth, Error>)
        ensures
            r is Ok,
            r->Ok_0.access_key@ == hs256_token(
                signing_key@,
                uuid_text(user.id.value),
                r->Ok_0.expiration.secs as int,
            ),
            exists|t: Timestamp| #[trigger]
                t.from_clock() && r->Ok_0.expiration.secs == t.secs + TOKEN_LIFETIME_SECONDS
                    && r->Ok_0.expiration.nanos == t.nanos,
            has_three_parts(r->Ok_0.access_key@),
    {
        let now = Timestamp::now();
        assert(now.secs + TOKEN_LIFETIME_SECONDS <= i64::MAX) by {
            assert(day_number(now.secs as int) <= i32::MAX);
        }
        assert(now.from_clock());
        Auth::create_at(signing_key, user, now)
    }

    /// What a verification's outcome means for the caller: the subject where
    /// the token verified and its claims have their shape, an internal error
    /// where they have not or where the failure points at the server, a bad
    /// request for every other failure.
    pub fn subject(outcome: Result<RawClaims, JwtFailure>) -> (r: Result<Id, Error>)
        ensures
            match outcome {
                Ok(claims) => match claims_subject(claims) {
                    Some(id) => r == Ok::<Id, Error>(id),
                    None => r is Err && r->Err_0.is(INTERNAL_SERVER_ERROR, "failed to parse jwt"@),
                },
                Err(kind) => r is Err && if jwt_failure_is_internal(kind) {
                    r->Err_0.is(INTERNAL_SERVER_ERROR, "failed to parse jwt"@)
                } else {
                    r->Err_0.is(BAD_REQUEST, "invalid jwt"@)
                },
            },
    {
        match outcome {
            Ok(claims) => {
                let RawClaims { exp, sub } = claims;
                match (exp, sub) {
                    (Some(_), Some(text)) => match Id::parse(text.as_str()) {
                        Some(id) => Ok(id),
                        None => Err(Error::from_jwt_failure(JwtFailure::Json)),
                    },
                    _ => Err(Error::from_jwt_failure(JwtFailure::Json)),
                }
            },
            Err(kind) => Err(Error::from_jwt_failure(kind)),
        }
    }

    /// What a reading of a token means at a given instant. A reading whose
    /// expiry has elapsed is a bad request; any other means what
    /// `Auth::subject` says.
    pub fn judge(outcome: Result<RawClaims, JwtFailure>, now: Timestamp) -> (r: Result<Id, Error>)
        ensures
            judged(reading_of(outcome), now, r),
    {
        let late = match &outcome {
            Ok(claims) => match claims.exp {
                Some(at) => at < now.secs,
                None => false,
            },
            Err(_) => false,
        };
        if late {
            Err(Error::from_jwt_failure(JwtFailure::Other))
        } else {
            Auth::subject(outcome)
        }
    }

    /// Verifies a token at a given instant: its signature under the key, and
    /// its expiry against the instant, with no grace.
    pub fn decode_at(signing_key: &str, token: &str, now: Timestamp) -> (r: Result<Id, Error>)
        ensures
            judged(token_reading(signing_key@, token@), now, r),
            !has_three_parts(token@) ==> r is Err && r->Err_0.is(BAD_REQUEST, "invalid jwt"@),
            r matches Err(e) ==> is_token_error(e),
    {
        Auth::judge(read_token(signing_key, token), now)
    }

    /// Verifies a token's signature and expiry and yields its subject: what
    /// `decode_at` gives at an instant that the clock handed out.
    pub fn decode(signing_key: &str, token: &str) -> (r: Result<Id, Error>)
        ensures
            exists|t: Timestamp| #[trigger]
                t.from_clock() && judged(token_reading(signing_key@, token@), t, r),
            !has_three_parts(token@) ==> r is Err && r->Err_0.is(BAD_REQUEST, "invalid jwt"@),
            r matches Err(e) ==> is_token_error(e),
            r is Ok ==> has_three_parts(token@),
    {
        let now = Timestamp::now();
        assert(now.from_clock());
        Auth::decode_at(signing_key, token, now)
    }

    /// The token that a request presents, or the rejection it has earned
    /// before any token is looked at.
    pub fn presented_token(header: &HeaderField) -> (r: Result<String, Error>)
        ensures
            match *header {
                HeaderField::Absent => r is Err && r->Err_0.is(UNAUTHORIZED, "missing auth token"@),
                HeaderField::Opaque => r is Err && r->Err_0.is(UNAUTHORIZED, "invalid auth token"@),
                HeaderField::Text(text) => match second_segment(text@) {
                    Some(token) => r is Ok && r->Ok_0@ == token,
                    None => r is Err && r->Err_0.is(UNAUTHORIZED, "missing auth token"@),
                },
            },
    {
        match header {
            HeaderField::Absent => Err(Error::new(UNAUTHORIZED, "missing auth token")),
            HeaderField::Opaque => Err(Error::new(UNAUTHORIZED, "invalid auth token")),
            HeaderField::Text(text) => match bearer_token(text.as_str()) {
                Some(token) => Ok(token),
                None => Err(Error::new(UNAUTHORIZED, "missing auth token")),
            },
        }
    }

    /// Reads the `Authorization` header out of a request's headers.
    pub fn authorization(header: &axum::http::HeaderMap) -> (r: HeaderField)
        ensures
            is_reading_of(authorization_bytes(*header), r),
    {
        match first_value(header, "authorization") {
            None => HeaderField::Absent,
            Some(bytes) => match header_text(bytes) {
                Some(text) => HeaderField::Text(text),
                None => HeaderField::Opaque,
            },
        }
    }

    /// Resolves the owner of a request from its headers. A request without
    /// an `Authorization` header, or with one of a single segment, is
    /// unauthorized for want of a token; one whose header is not text is
    /// unauthorized for an invalid token; any other is as good as the token
    /// in the header's second segment is at an instant of the clock.
    pub fn decode_header(signing_key: &str, header: axum::http::HeaderMap) -> (r: Result<Id, Error>)
        ensures
            match authorization_bytes(header) {
                None => r is Err && r->Err_0.is(UNAUTHORIZED, "missing auth token"@),
                Some(bytes) => if !is_text(bytes) {
                    r is Err && r->Err_0.is(UNAUTHORIZED, "invalid auth token"@)
                } else if second_segment(text_of(bytes)) is None {
                    r is Err && r->Err_0.is(UNAUTHORIZED, "missing auth token"@)
                } else {
                    &&& exists|t: Timestamp| #[trigger]
                        t.from_clock() && judged(
                            token_reading(signing_key@, second_segment(text_of(bytes))->Some_0),
                            t,
                            r,
                        )
                    &&& r matches Err(e) ==> is_token_error(e)
                    &&& !has_three_parts(second_segment(text_of(bytes))->Some_0) ==> r is Err
                        && r->Err_0.is(BAD_REQUEST, "invalid jwt"@)
                },
            },
    {
        let field = Auth::authorization(&header);
        match Auth::presented_token(&field) {
            Ok(token) => Auth::decode(signing_key, token.as_str()),
            Err(e) => Err(e),
        }
    }
}

/// True of a text that two dots cut into three parts, as they do every
/// signed token: header, payload and signature.
pub open spec fn has_three_parts(token: Seq<char>) -> bool {
    exists|i: int, j: int|
        0 <= i < j < token.len() && #[trigger] token[i] == '.' && #[trigger] token[j] == '.'
}

} // verus!
