//! How a request to `POST /` is answered, and the status code of each answer.

use vstd::prelude::*;

use crate::dependency::Dependency;
use crate::service::LcmResponse;

verus! {

/// The answer to a request to `POST /`.
#[derive(Clone, PartialEq, Eq, Debug)]
pub enum Reply {
    /// `200`: the operands and the least common multiple.
    Evaluated(LcmResponse),
    /// `503`: the dependency could not be used.
    Degraded { dependency: Dependency },
    /// A dependency's rejection, passed on with its status and its body unchanged.
    Forwarded { status: u16, body: Vec<u8> },
    /// `500`: the dependency answered `200` without an integer `result`.
    Malformed { dependency: Dependency },
}

/// Whether `code` is a status code that HTTP can carry (three digits).
pub open spec fn is_status_code(code: u16) -> bool {
    100 <= code <= 999
}

/// The status with which a dependency's `status` is passed on: the status itself
/// where it is a valid status code, else `502 Bad Gateway`.
pub open spec fn forwarded_status(status: u16) -> u16 {
    if is_status_code(status) {
        status
    } else {
        502
    }
}

/// `http::StatusCode::from_u16`, read back as a number: the code itself where it
/// lies in `100..=999`, otherwise nothing, as the `http` source and docs state.
#[verifier::external_body]
fn status_code_from_u16(code: u16) -> (checked: Option<u16>)
    ensures
        checked == (if is_status_code(code) { Some(code) } else { None::<u16> }),
{
    match axum::http::StatusCode::from_u16(code) {
        Ok(status) => Some(status.as_u16()),
        Err(_) => None,
    }
}

/// `200` with the operands and the result.
pub fn ok(a: i64, b: i64, result: i64) -> (reply: Reply)
    ensures
        reply == Reply::Evaluated(LcmResponse { a, b, result }),
{
    Reply::Evaluated(LcmResponse { a, b, result })
}

/// `503`: `dependency` is unavailable.
pub fn degraded(dependency: Dependency) -> (reply: Reply)
    ensures
        reply == (Reply::Degraded { dependency }),
{
    Reply::Degraded { dependency }
}

/// A dependency's answer passed on unchanged; a status that is no valid status
/// code becomes `502`.
pub fn forward(status: u16, body: Vec<u8>) -> (reply: Reply)
    ensures
        reply == (Reply::Forwarded { status: forwarded_status(status), body }),
{
    let code = match status_code_from_u16(status) {
        Some(code) => code,
        None => 502,
    };
    Reply::Forwarded { status: code, body }
}

/// `500`: `dependency` answered `200` but its body lacked an integer `result`.
pub fn malformed(dependency: Dependency) -> (reply: Reply)
    ensures
        reply == (Reply::Malformed { dependency }),
{
    Reply::Malformed { dependency }
}

impl Reply {
    /// The status code of the reply.
    pub open spec fn spec_status(self) -> u16 {
        match self {
            Reply::Evaluated(_) => 200,
            Reply::Degraded { .. } => 503,
            Reply::Forwarded { status, .. } => status,
            Reply::Malformed { .. } => 500,
        }
    }

    /// The status code of the reply.
    pub fn status(&self) -> (status: u16)
        ensures
            status == self.spec_status(),
    {
        match self {
            Reply::Evaluated(_) => 200,
            Reply::Degraded { .. } => 503,
            Reply::Forwarded { status, .. } => *status,
            Reply::Malformed { .. } => 500,
        }
    }

    /// The dependency that a `503` or `500` reply names.
    pub open spec fn spec_dependency(self) -> Option<Dependency> {
        match self {
            Reply::Degraded { dependency } => Some(dependency),
            Reply::Malformed { dependency } => Some(dependency),
            _ => None,
        }
    }

    /// The dependency that a `503` or `500` reply names.
    pub fn dependency(&self) -> (dependency: Option<Dependency>)
        ensures
            dependency == self.spec_dependency(),
    {
        match self {
            Reply::Degraded { dependency } => Some(*dependency),
            Reply::Malformed { dependency } => Some(*dependency),
            _ => None,
        }
    }

    /// The `error` text of a `503` or `500` reply.
    pub open spec fn spec_error(self) -> Option<Seq<char>> {
        match self {
            Reply::Degraded { .. } => Some("dependency unavailable"@),
            Reply::Malformed { .. } => Some("dependency returned a malformed result"@),
            _ => None,
        }
    }

    /// The `error` text of a `503` or `500` reply.
    pub fn error(&self) -> (error: Option<&'static str>)
        ensures
            match error {
                Some(text) => self.spec_error() == Some(text@),
                None => self.spec_error() is None,
            },
    {
        match self {
            Reply::Degraded { .. } => Some("dependency unavailable"),
            Reply::Malformed { .. } => Some("dependency returned a malformed result"),
            _ => None,
        }
    }
}

} // verus!
