//! Ownership-scoped resource rules of a bar-management backend: bearer
//! tokens, error taxonomy, owner scoping of stored rows, one-level ingredient
//! composition and the three-step media upload protocol.

pub mod auth;
pub mod error;
pub mod header;
pub mod ident;
pub mod misc;
pub mod model;
pub mod text;
pub mod upload;

pub use crate::auth::Auth;
pub use crate::error::Error;
pub use crate::ident::{Id, Timestamp};

use vstd::prelude::*;

verus! {

/// Name of the object-store bucket that holds every media blob.
pub const MEDIA_BUCKET: &'static str = "tapsters-media";

} // verus!
