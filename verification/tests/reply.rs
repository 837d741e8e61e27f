use srvcs_lcm::dependency::{CallOutcome, Dependency};
use srvcs_lcm::evaluation::{answer, ask, Action, DependencyCall, Evaluation, Stage};
use srvcs_lcm::json::result_of;
use srvcs_lcm::reply::{degraded, forward, malformed, ok, Reply};
use srvcs_lcm::service::{Deps, LcmResponse};

#[test]
fn reply_statuses() {
    assert_eq!(ok(4, 6, 12).status(), 200);
    assert_eq!(degraded(Dependency::Gcd).status(), 503);
    assert_eq!(malformed(Dependency::Divide).status(), 500);
    assert_eq!(forward(422, vec![]).status(), 422);
}

#[test]
fn ok_echoes_operands() {
    assert_eq!(ok(4, 6, 12), Reply::Evaluated(LcmResponse { a: 4, b: 6, result: 12 }));
}

#[test]
fn forward_keeps_valid_statuses_and_body() {
    let body = b"{\"error\":\"bad operand\"}".to_vec();
    assert_eq!(forward(422, body.clone()), Reply::Forwarded { status: 422, body: body.clone() });
    assert_eq!(forward(100, vec![]).status(), 100);
    assert_eq!(forward(999, vec![]).status(), 999);
}

#[test]
fn forward_maps_invalid_statuses_to_bad_gateway() {
    assert_eq!(forward(99, vec![1]).status(), 502);
    assert_eq!(forward(0, vec![]).status(), 502);
    assert_eq!(forward(1000, vec![]).status(), 502);
    assert_eq!(forward(u16::MAX, vec![]), Reply::Forwarded { status: 502, body: vec![] });
}

#[test]
fn error_texts_and_dependencies() {
    assert_eq!(degraded(Dependency::Gcd).error(), Some("dependency unavailable"));
    assert_eq!(malformed(Dependency::Gcd).error(), Some("dependency returned a malformed result"));
    assert_eq!(ok(1, 1, 1).error(), None);
    assert_eq!(forward(422, vec![]).error(), None);
    assert_eq!(degraded(Dependency::Multiply).dependency(), Some(Dependency::Multiply));
    assert_eq!(forward(422, vec![]).dependency(), None);
}

#[test]
fn dependency_names() {
    assert_eq!(Dependency::Gcd.name(), "srvcs-gcd");
    assert_eq!(Dependency::Divide.name(), "srvcs-divide");
    assert_eq!(Dependency::Multiply.name(), "srvcs-multiply");
}

#[test]
fn deps_route_each_dependency_to_its_url() {
    let deps = Deps {
        gcd_url: "http://gcd".to_string(),
        divide_url: "http://divide".to_string(),
        multiply_url: "http://multiply".to_string(),
    };
    assert_eq!(deps.url_for(Dependency::Gcd), "http://gcd");
    assert_eq!(deps.url_for(Dependency::Divide), "http://divide");
    assert_eq!(deps.url_for(Dependency::Multiply), "http://multiply");
}

#[test]
fn result_is_read_from_json_bodies() {
    assert_eq!(result_of(b"{\"result\": 12}"), Some(12));
    assert_eq!(result_of(b"{\"a\": 1, \"result\": -7}"), Some(-7));
    assert_eq!(result_of(b"{\"result\": 9223372036854775807}"), Some(i64::MAX));
}

#[test]
fn missing_or_non_integer_results_are_none() {
    assert_eq!(result_of(b"{\"result\": \"not-a-number\"}"), None);
    assert_eq!(result_of(b"{\"result\": 1.5}"), None);
    assert_eq!(result_of(b"{\"result\": 9223372036854775808}"), None);
    assert_eq!(result_of(b"{\"value\": 3}"), None);
    assert_eq!(result_of(b"[1, 2]"), None);
    assert_eq!(result_of(b"not json"), None);
    assert_eq!(result_of(b""), None);
}

#[test]
fn ask_maps_each_outcome() {
    let body = b"{\"result\":2}".to_vec();
    assert_eq!(ask(Dependency::Gcd, CallOutcome::Unreachable), Err(Reply::Degraded { dependency: Dependency::Gcd }));
    assert_eq!(
        ask(Dependency::Gcd, CallOutcome::Answered { status: 200, body: body.clone() }),
        Ok(body.clone())
    );
    assert_eq!(
        ask(Dependency::Divide, CallOutcome::Answered { status: 422, body: body.clone() }),
        Err(Reply::Forwarded { status: 422, body: body.clone() })
    );
    assert_eq!(
        ask(Dependency::Multiply, CallOutcome::Answered { status: 500, body: body.clone() }),
        Err(Reply::Degraded { dependency: Dependency::Multiply })
    );
}

#[test]
fn answer_reads_the_result_or_fails() {
    let good = CallOutcome::Answered { status: 200, body: b"{\"result\":2}".to_vec() };
    assert_eq!(answer(Dependency::Gcd, good), Ok(2));
    let bad = CallOutcome::Answered { status: 200, body: b"{}".to_vec() };
    assert_eq!(answer(Dependency::Divide, bad), Err(Reply::Malformed { dependency: Dependency::Divide }));
}

#[test]
fn advance_on_answers() {
    let (mut evaluation, _) = Evaluation::start(srvcs_lcm::service::EvalRequest { a: 21, b: 6 });
    assert_eq!(
        evaluation.advance(Ok(3)),
        Action::Call(DependencyCall { dependency: Dependency::Divide, a: 21, b: 3 })
    );
    assert_eq!(evaluation.stage, Stage::AwaitingDivide);
    assert_eq!(
        evaluation.advance(Ok(7)),
        Action::Call(DependencyCall { dependency: Dependency::Multiply, a: 7, b: 6 })
    );
    assert_eq!(evaluation.advance(Ok(42)), Action::Respond(ok(21, 6, 42)));
    assert!(evaluation.is_finished());
}

#[test]
fn advance_on_zero_gcd_finishes_with_zero() {
    let (mut evaluation, first) = Evaluation::start(srvcs_lcm::service::EvalRequest { a: 0, b: 0 });
    assert_eq!(first, Action::Call(DependencyCall { dependency: Dependency::Gcd, a: 0, b: 0 }));
    assert_eq!(evaluation.advance(Ok(0)), Action::Respond(ok(0, 0, 0)));
    assert_eq!(evaluation.stage, Stage::Finished);
}

#[test]
fn advance_on_a_reply_finishes_with_it() {
    let (mut evaluation, _) = Evaluation::start(srvcs_lcm::service::EvalRequest { a: 4, b: 6 });
    let reply = degraded(Dependency::Gcd);
    assert_eq!(evaluation.advance(Err(reply.clone())), Action::Respond(reply));
    assert!(evaluation.is_finished());
}
