//! Identifiers and instants as plain values.

use vstd::prelude::*;

verus! {

/// A 128-bit identifier; the value is the UUID read as a big-endian integer.
#[derive(Clone, Copy, Debug, PartialEq, Eq, Structural, Hash)]
pub struct Id {
    pub value: u128,
}

/// An instant in UTC: whole seconds since the Unix epoch plus nanoseconds.
#[derive(Clone, Copy, Debug, PartialEq, Eq, Structural, Hash)]
pub struct Timestamp {
    pub secs: i64,
    pub nanos: u32,
}

/// What `uuid::Uuid::parse_str` makes of a text: the identifier's value, or
/// `None` where the text is no UUID in any of the accepted notations.
pub uninterp spec fn uuid_parse(text: Seq<char>) -> Option<u128>;

/// The text that `uuid::Uuid`'s `Display` writes for a value: lower-case
/// hexadecimal digits in five hyphenated groups.
pub uninterp spec fn uuid_text(value: u128) -> Seq<char>;

/// Calls `uuid::Uuid::parse_str`. The result depends on the text alone; the
/// contract names it and claims nothing else.
#[verifier::external_body]
pub(crate) fn parse_uuid(text: &str) -> (r: Option<Id>)
    ensures
        r == (match uuid_parse(text@) {
            Some(v) => Some(Id { value: v }),
            None => None,
        }),
{
    match uuid::Uuid::parse_str(text) {
        Ok(u) => Some(Id { value: u.as_u128() }),
        Err(_) => None,
    }
}

/// Calls `to_string` on the `uuid::Uuid` with this value. The result depends
/// on the value alone and the contract names it. It also claims what the
/// crate documents of its parser: that it reads every notation the crate
/// writes, so the text parses back to the value.
#[verifier::external_body]
pub(crate) fn format_uuid(id: Id) -> (r: String)
    ensures
        r@ == uuid_text(id.value),
        uuid_parse(r@) == Some(id.value),
{
    uuid::Uuid::from_u128(id.value).to_string()
}

/// The day that a second of Unix time falls on, counted as chrono counts
/// days: whole days since the epoch, plus the epoch's own day number.
pub open spec fn day_number(secs: int) -> int {
    secs / 86_400 + 719_163
}

// The clock itself stands below, after the instants it makes.

impl Id {
    /// The identifier with the given value.
    pub fn from_u128(value: u128) -> (r: Id)
        ensures
            r.value == value,
    {
        Id { value }
    }

    /// Reads an identifier from its text form.
    pub fn parse(text: &str) -> (r: Option<Id>)
        ensures
            r == (match uuid_parse(text@) {
                Some(v) => Some(Id { value: v }),
                None => None,
            }),
    {
        parse_uuid(text)
    }

    /// The identifier's text form, which is also the key of a media blob.
    /// It parses back to the identifier.
    pub fn to_text(&self) -> (r: String)
        ensures
            r@ == uuid_text(self.value),
            uuid_parse(r@) == Some(self.value),
    {
        format_uuid(*self)
    }
}

impl Timestamp {
    /// The current instant.
    pub fn now() -> (r: Timestamp)
        ensures
            r.from_clock(),
    {
        clock_now()
    }

    /// What holds of every instant that the clock hands out: its day number
    /// fits in 32 bits, and its nanoseconds stay below one second.
    pub open spec fn from_clock(&self) -> bool {
        &&& i32::MIN <= day_number(self.secs as int) <= i32::MAX
        &&& self.nanos < 1_000_000_000
    }

    /// This instant moved forward by whole seconds.
    pub fn plus_seconds(&self, seconds: i64) -> (r: Timestamp)
        requires
            i64::MIN <= self.secs + seconds <= i64::MAX,
        ensures
            r.secs == self.secs + seconds,
            r.nanos == self.nanos,
    {
        Timestamp { secs: self.secs + seconds, nanos: self.nanos }
    }
}

/// Calls `chrono::Utc::now` and reads the instant back with `timestamp` and
/// `timestamp_subsec_nanos`. Which instant comes back is the clock's affair.
/// The contract claims what the crate's source shows of every one: `now`
/// builds it with `from_timestamp`, which refuses seconds whose day number
/// does not fit in 32 bits, from a `Duration`, whose nanoseconds std keeps
/// below one billion; and the two getters give both numbers back unchanged.
#[verifier::external_body]
pub(crate) fn clock_now() -> (r: Timestamp)
    ensures
        r.from_clock(),
{
    let now = chrono::Utc::now();
    Timestamp { secs: now.timestamp(), nanos: now.timestamp_subsec_nanos() }
}

} // verus!
