//! The least-common-multiple orchestrator: it composes the `gcd`, `divide` and
//! `multiply` services into `lcm(a, b) = (a / gcd(a, b)) * b` and decides, from
//! each dependency's answer, whether to call the next one or how to reply.

pub mod dependency;
pub mod evaluation;
pub mod json;
pub mod lcm;
pub mod openapi;
pub mod openapi_model;
pub mod reply;
pub mod service;
