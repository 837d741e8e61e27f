//! Service identity: what `GET /` reports.

use vstd::prelude::*;

verus! {

/// The name this service reports.
pub const SERVICE: &'static str = "srvcs-lcm";

/// The single concern of this service.
pub const CONCERN: &'static str = "number theory: least common multiple";

/// The services this one depends on, in the order a full evaluation calls them.
pub const DEPENDS_ON: [&'static str; 3] = ["srvcs-gcd", "srvcs-divide", "srvcs-multiply"];

/// What `GET /` reports.
pub struct Info {
    pub service: &'static str,
    pub concern: &'static str,
    pub depends_on: Vec<&'static str>,
}

/// Service identity (`GET /`): name, concern and the dependencies.
pub fn index() -> (info: Info)
    ensures
        info.service@ == SERVICE@,
        info.concern@ == CONCERN@,
        info.depends_on@ == DEPENDS_ON@,
{
    Info { service: SERVICE, concern: CONCERN, depends_on: vstd::slice::slice_to_vec(&DEPENDS_ON) }
}

/// The body of `POST /`: the two operands.
#[derive(Clone, Copy, PartialEq, Eq, Debug, Structural)]
pub struct EvalRequest {
    pub a: i64,
    pub b: i64,
}

/// The body of a successful `POST /`: the operands and their least common multiple.
#[derive(Clone, Copy, PartialEq, Eq, Debug, Structural)]
pub struct LcmResponse {
    pub a: i64,
    pub b: i64,
    pub result: i64,
}

/// Base URLs of the three dependencies.
#[derive(Clone, Debug)]
pub struct Deps {
    pub gcd_url: String,
    pub divide_url: String,
    pub multiply_url: String,
}

} // verus!
