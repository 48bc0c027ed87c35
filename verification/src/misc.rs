//! The liveness report.

use vstd::prelude::*;
use vstd::string::*;

verus! {

/// What the service says of itself when asked whether it is up.
#[derive(Clone, Debug, PartialEq, Eq)]
pub struct HealthCheck {
    pub status: String,
    pub service: String,
}

/// The report of a running service.
pub fn healthcheck() -> (r: HealthCheck)
    ensures
        r.status@ == "OK"@,
        r.service@ == "tapster-api"@,
{
    HealthCheck { status: String::from_str("OK"), service: String::from_str("tapster-api") }
}

} // verus!
