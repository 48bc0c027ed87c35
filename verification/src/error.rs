//! The error taxonomy and the mapping of collaborator failures onto it.

use vstd::prelude::*;
use vstd::string::*;

verus! {

pub const BAD_REQUEST: u16 = 400;
pub const UNAUTHORIZED: u16 = 401;
pub const NOT_FOUND: u16 = 404;
pub const CONFLICT: u16 = 409;
pub const INTERNAL_SERVER_ERROR: u16 = 500;

/// A failure as the transport renders it: a status code and a short message.
#[derive(Clone, Debug, PartialEq, Eq)]
pub struct Error {
    pub status_code: u16,
    pub message: String,
}

/// What went wrong inside the token codec, as far as the mapping reads it.
#[derive(Clone, Copy, Debug, PartialEq, Eq, Structural)]
pub enum JwtFailure {
    Json,
    Utf8,
    Base64,
    Crypto,
    Other,
}

/// A failure of the relational store as plain values.
#[derive(Clone, Debug, PartialEq, Eq)]
pub enum DatabaseFailure {
    /// A statement that needs a row matched none.
    MissingRow,
    /// The database refused the statement under this SQLSTATE code.
    Code(String),
    /// Any other failure, with its own description.
    Other(String),
}

/// The status that a SQLSTATE code maps to.
pub open spec fn database_status(code: Seq<char>) -> u16 {
    if code == "02000"@ {
        NOT_FOUND
    } else if code == "23502"@ {
        BAD_REQUEST
    } else if code == "23503"@ {
        NOT_FOUND
    } else if code == "23505"@ {
        CONFLICT
    } else if code == "23514"@ {
        BAD_REQUEST
    } else {
        INTERNAL_SERVER_ERROR
    }
}

/// The message that a SQLSTATE code maps to.
pub open spec fn database_message(code: Seq<char>) -> Seq<char> {
    if code == "02000"@ {
        "no rows"@
    } else if code == "23502"@ {
        "not null violation"@
    } else if code == "23503"@ {
        "foreign key violation"@
    } else if code == "23505"@ {
        "unique violation"@
    } else if code == "23514"@ {
        "check violation"@
    } else {
        "unknown error code: "@ + code
    }
}

/// True when `e` is the error that a failure of the store maps to.
pub open spec fn is_database_error(failure: DatabaseFailure, e: Error) -> bool {
    match failure {
        DatabaseFailure::MissingRow => e.is(NOT_FOUND, "no rows"@),
        DatabaseFailure::Code(code) => e.is(database_status(code@), database_message(code@)),
        DatabaseFailure::Other(description) => e.is(INTERNAL_SERVER_ERROR, description@),
    }
}

/// True of the token failures that point at the server's own configuration.
pub open spec fn jwt_failure_is_internal(kind: JwtFailure) -> bool {
    kind != JwtFailure::Other
}

impl Error {
    pub fn new(status: u16, message: &str) -> (r: Error)
        ensures
            r.status_code == status,
            r.message@ == message@,
    {
        Error { status_code: status, message: message.to_owned() }
    }

    pub fn status_code(&self) -> (r: u16)
        ensures
            r == self.status_code,
    {
        self.status_code
    }

    pub fn message(&self) -> (r: &str)
        ensures
            r@ == self.message@,
    {
        self.message.as_str()
    }

    /// True when this error has the given status and message.
    pub open spec fn is(&self, status: u16, message: Seq<char>) -> bool {
        self.status_code == status && self.message@ == message
    }

    /// A token failure that points at the server (key or payload bytes) is an
    /// internal error; every other one is the client's bad request.
    pub fn from_jwt_failure(kind: JwtFailure) -> (r: Error)
        ensures
            jwt_failure_is_internal(kind) ==> r.is(INTERNAL_SERVER_ERROR, "failed to parse jwt"@),
            !jwt_failure_is_internal(kind) ==> r.is(BAD_REQUEST, "invalid jwt"@),
    {
        match kind {
            JwtFailure::Json | JwtFailure::Utf8 | JwtFailure::Base64 | JwtFailure::Crypto => {
                Error::new(INTERNAL_SERVER_ERROR, "failed to parse jwt")
            },
            JwtFailure::Other => Error::new(BAD_REQUEST, "invalid jwt"),
        }
    }

    /// Maps a failure of the relational store: a missing row is not found,
    /// a refusal goes by its SQLSTATE code, and anything else is an internal
    /// error that carries the description.
    pub fn from_database(failure: DatabaseFailure) -> (r: Error)
        ensures
            is_database_error(failure, r),
    {
        match failure {
            DatabaseFailure::MissingRow => Error::new(NOT_FOUND, "no rows"),
            DatabaseFailure::Code(code) => {
                if code == String::from_str("02000") {
                    Error::new(NOT_FOUND, "no rows")
                } else if code == String::from_str("23502") {
                    Error::new(BAD_REQUEST, "not null violation")
                } else if code == String::from_str("23503") {
                    Error::new(NOT_FOUND, "foreign key violation")
                } else if code == String::from_str("23505") {
                    Error::new(CONFLICT, "unique violation")
                } else if code == String::from_str("23514") {
                    Error::new(BAD_REQUEST, "check violation")
                } else {
                    let message = String::from_str("unknown error code: ").concat(code.as_str());
                    Error { status_code: INTERNAL_SERVER_ERROR, message }
                }
            },
            DatabaseFailure::Other(description) => Error {
                status_code: INTERNAL_SERVER_ERROR,
                message: description,
            },
        }
    }

    /// A failure of a collaborator that has no finer mapping: an internal
    /// error that carries the collaborator's own description.
    pub fn internal(description: String) -> (r: Error)
        ensures
            r.is(INTERNAL_SERVER_ERROR, description@),
    {
        Error { status_code: INTERNAL_SERVER_ERROR, message: description }
    }
}

} // verus!
