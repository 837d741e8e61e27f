//! Evaluations driven against in-test dependencies that compute their answers
//! (`gcd`, `a / b`, `a * b`) or answer with a fixed outcome.

use srvcs_lcm::dependency::{CallOutcome, Dependency};
use srvcs_lcm::evaluation::{Action, DependencyCall, Evaluation};
use srvcs_lcm::reply::Reply;
use srvcs_lcm::service::{EvalRequest, LcmResponse};

/// A dependency as the evaluation sees it: the outcome of one call.
type Service = fn(i64, i64) -> CallOutcome;

fn answer(status: u16, body: &str) -> CallOutcome {
    CallOutcome::Answered { status, body: body.as_bytes().to_vec() }
}

fn result(value: i64) -> CallOutcome {
    answer(200, &format!("{{\"result\":{value}}}"))
}

fn gcd(a: i64, b: i64) -> i64 {
    let (mut x, mut y) = (a, b);
    while y != 0 {
        let r = x % y;
        x = y;
        y = r;
    }
    x
}

fn computing_gcd(a: i64, b: i64) -> CallOutcome {
    result(gcd(a, b))
}

fn computing_divide(a: i64, b: i64) -> CallOutcome {
    if b == 0 {
        return answer(422, "{\"error\":\"divide by zero\"}");
    }
    result(a / b)
}

fn computing_multiply(a: i64, b: i64) -> CallOutcome {
    result(a * b)
}

fn dead(_: i64, _: i64) -> CallOutcome {
    CallOutcome::Unreachable
}

fn rejecting_not_integer(_: i64, _: i64) -> CallOutcome {
    answer(422, "{\"error\":\"value is not an integer\"}")
}

fn rejecting_bad_operand(_: i64, _: i64) -> CallOutcome {
    answer(422, "{\"error\":\"bad operand\"}")
}

fn not_a_number(_: i64, _: i64) -> CallOutcome {
    answer(200, "{\"result\":\"not-a-number\"}")
}

/// Runs one evaluation to its reply; also returns the calls it made.
fn run(gcd: Service, divide: Service, multiply: Service, a: i64, b: i64) -> (Reply, Vec<DependencyCall>) {
    let (mut evaluation, mut action) = Evaluation::start(EvalRequest { a, b });
    let mut calls = Vec::new();
    loop {
        match action {
            Action::Respond(reply) => {
                assert!(evaluation.is_finished());
                return (reply, calls);
            }
            Action::Call(call) => {
                calls.push(call);
                assert!(!evaluation.is_finished());
                let service = match call.dependency {
                    Dependency::Gcd => gcd,
                    Dependency::Divide => divide,
                    Dependency::Multiply => multiply,
                };
                action = evaluation.on_outcome(service(call.a, call.b));
            }
        }
    }
}

fn lcm(gcd: Service, divide: Service, multiply: Service, a: i64, b: i64) -> (u16, Reply) {
    let (reply, _) = run(gcd, divide, multiply, a, b);
    (reply.status(), reply)
}

fn evaluated(reply: &Reply) -> LcmResponse {
    match reply {
        Reply::Evaluated(response) => *response,
        other => panic!("not evaluated: {other:?}"),
    }
}

fn body_text(reply: &Reply) -> String {
    match reply {
        Reply::Forwarded { body, .. } => String::from_utf8(body.clone()).unwrap(),
        other => panic!("not forwarded: {other:?}"),
    }
}

// --- Correctness cases, against the computing dependencies. ---

#[test]
fn lcm_4_6_is_12() {
    let (status, body) = lcm(computing_gcd, computing_divide, computing_multiply, 4, 6);
    assert_eq!(status, 200);
    let body = evaluated(&body);
    assert_eq!(body.a, 4);
    assert_eq!(body.b, 6);
    // gcd(4,6)=2; 4/2=2; 2*6=12
    assert_eq!(body.result, 12);
}

#[test]
fn lcm_21_6_is_42() {
    let (status, body) = lcm(computing_gcd, computing_divide, computing_multiply, 21, 6);
    assert_eq!(status, 200);
    // gcd(21,6)=3; 21/3=7; 7*6=42
    assert_eq!(evaluated(&body).result, 42);
}

#[test]
fn lcm_coprime_3_5_is_15() {
    let (status, body) = lcm(computing_gcd, computing_divide, computing_multiply, 3, 5);
    assert_eq!(status, 200);
    // gcd(3,5)=1; 3/1=3; 3*5=15
    assert_eq!(evaluated(&body).result, 15);
}

#[test]
fn lcm_equal_7_7_is_7() {
    let (status, body) = lcm(computing_gcd, computing_divide, computing_multiply, 7, 7);
    assert_eq!(status, 200);
    // gcd(7,7)=7; 7/7=1; 1*7=7
    assert_eq!(evaluated(&body).result, 7);
}

#[test]
fn lcm_with_a_zero_runs_full_pipeline() {
    // gcd(0, 5) == 5 (not zero), so this exercises the full pipeline:
    // 0/5=0; 0*5=0.
    let (reply, calls) = run(computing_gcd, computing_divide, computing_multiply, 0, 5);
    assert_eq!(reply.status(), 200);
    assert_eq!(evaluated(&reply).result, 0);
    assert_eq!(calls.len(), 3);
}

#[test]
fn lcm_0_0_is_0_without_more_calls() {
    // gcd(0,0)==0 -> result is 0 and divide/multiply are never called: point
    // those at dead dependencies to show no call is made.
    let (reply, calls) = run(computing_gcd, dead, dead, 0, 0);
    assert_eq!(reply.status(), 200);
    assert_eq!(evaluated(&reply).result, 0);
    assert_eq!(calls, vec![DependencyCall { dependency: Dependency::Gcd, a: 0, b: 0 }]);
}

// --- Error / degraded paths. ---

#[test]
fn degrades_when_gcd_unreachable() {
    let (status, body) = lcm(dead, computing_divide, computing_multiply, 4, 6);
    assert_eq!(status, 503);
    assert_eq!(body.dependency().unwrap().name(), "srvcs-gcd");
}

#[test]
fn degrades_when_divide_unreachable() {
    // gcd is reachable and non-zero, so the evaluation reaches the divide call.
    let (status, body) = lcm(computing_gcd, dead, computing_multiply, 4, 6);
    assert_eq!(status, 503);
    assert_eq!(body.dependency().unwrap().name(), "srvcs-divide");
}

#[test]
fn degrades_when_multiply_unreachable() {
    // gcd + divide reachable, so the evaluation reaches the multiply call.
    let (status, body) = lcm(computing_gcd, computing_divide, dead, 4, 6);
    assert_eq!(status, 503);
    assert_eq!(body.dependency().unwrap().name(), "srvcs-multiply");
}

#[test]
fn forwards_422_from_gcd() {
    let (status, body) = lcm(rejecting_not_integer, computing_divide, computing_multiply, 4, 6);
    assert_eq!(status, 422);
    assert_eq!(body_text(&body), "{\"error\":\"value is not an integer\"}");
}

#[test]
fn forwards_422_from_divide() {
    // gcd computes a real (non-zero) result so the evaluation reaches divide,
    // which rejects -> forward 422.
    let (status, body) = lcm(computing_gcd, rejecting_bad_operand, computing_multiply, 4, 6);
    assert_eq!(status, 422);
    assert_eq!(body_text(&body), "{\"error\":\"bad operand\"}");
}

#[test]
fn forwards_422_from_multiply() {
    let (status, body) = lcm(computing_gcd, computing_divide, rejecting_bad_operand, 4, 6);
    assert_eq!(status, 422);
    assert_eq!(body_text(&body), "{\"error\":\"bad operand\"}");
}

#[test]
fn malformed_gcd_result_is_500() {
    // gcd answers 200 but with no integer result -> contract violation -> 500.
    let (status, body) = lcm(not_a_number, computing_divide, computing_multiply, 4, 6);
    assert_eq!(status, 500);
    assert_eq!(body.dependency().unwrap().name(), "srvcs-gcd");
}

// --- The order and operands of the calls. ---

#[test]
fn calls_are_gcd_then_divide_then_multiply_with_the_documented_operands() {
    let (reply, calls) = run(computing_gcd, computing_divide, computing_multiply, 4, 6);
    assert_eq!(evaluated(&reply).result, 12);
    assert_eq!(
        calls,
        vec![
            DependencyCall { dependency: Dependency::Gcd, a: 4, b: 6 },
            DependencyCall { dependency: Dependency::Divide, a: 4, b: 2 },
            DependencyCall { dependency: Dependency::Multiply, a: 2, b: 6 },
        ]
    );
}

#[test]
fn an_error_stops_the_evaluation_at_once() {
    let (_, calls) = run(dead, computing_divide, computing_multiply, 4, 6);
    assert_eq!(calls.len(), 1);
    let (_, calls) = run(computing_gcd, rejecting_bad_operand, computing_multiply, 4, 6);
    assert_eq!(calls.len(), 2);
}

#[test]
fn a_status_other_than_200_and_422_degrades() {
    fn teapot(_: i64, _: i64) -> CallOutcome {
        answer(418, "{\"result\":5}")
    }
    let (status, body) = lcm(computing_gcd, teapot, computing_multiply, 4, 6);
    assert_eq!(status, 503);
    assert_eq!(body, Reply::Degraded { dependency: Dependency::Divide });
}

#[test]
fn malformed_multiply_result_is_500() {
    fn float(_: i64, _: i64) -> CallOutcome {
        answer(200, "{\"result\":12.5}")
    }
    let (status, body) = lcm(computing_gcd, computing_divide, float, 4, 6);
    assert_eq!(status, 500);
    assert_eq!(body, Reply::Malformed { dependency: Dependency::Multiply });
}

#[test]
fn lcm_of_larger_coprime_and_shared_operands() {
    let (_, reply) = lcm(computing_gcd, computing_divide, computing_multiply, 12, 18);
    assert_eq!(evaluated(&reply).result, 36);
    let (_, reply) = lcm(computing_gcd, computing_divide, computing_multiply, 17, 19);
    assert_eq!(evaluated(&reply).result, 323);
    let (_, reply) = lcm(computing_gcd, computing_divide, computing_multiply, 9, 0);
    assert_eq!(evaluated(&reply).result, 0);
}
