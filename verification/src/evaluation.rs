//! The control flow of `POST /` as a state machine.
//!
//! An evaluation of `lcm(a, b)` asks `srvcs-gcd` for `g = gcd(a, b)`; where
//! `g == 0` it replies `0` at once; otherwise it asks `srvcs-divide` for
//! `q = a / g` and `srvcs-multiply` for `q * b`, and replies with that. The
//! caller performs each call that an [`Action`] asks for and hands the outcome
//! back to [`Evaluation::on_outcome`].

use vstd::prelude::*;

use crate::dependency::{CallOutcome, Dependency};
use crate::json::{json_integer_member_of, result_of, spec_result_of};
use crate::reply::{degraded, forward, forwarded_status, malformed, ok, Reply};
use crate::service::{EvalRequest, LcmResponse, DEPENDS_ON};

verus! {

/// Maps a dependency's outcome to its body (on `200`) or to the reply
/// that ends the evaluation.
pub open spec fn spec_ask(dependency: Dependency, outcome: CallOutcome) -> Result<Vec<u8>, Reply> {
    match outcome {
        CallOutcome::Unreachable => Err(Reply::Degraded { dependency }),
        CallOutcome::Answered { status, body } => {
            if status == 200 {
                Ok(body)
            } else if status == 422 {
                Err(Reply::Forwarded { status: forwarded_status(422), body })
            } else {
                Err(Reply::Degraded { dependency })
            }
        },
    }
}

/// Maps the outcome of one call to `dependency`:
///
/// - unreachable, or a status other than `200` and `422`: `503` naming it;
/// - `422`: the rejection is forwarded with its body;
/// - `200`: its body, for the caller to read.
pub fn ask(dependency: Dependency, outcome: CallOutcome) -> (answer: Result<Vec<u8>, Reply>)
    ensures
        answer == spec_ask(dependency, outcome),
        (outcome matches CallOutcome::Answered { status, body } && status == 200) ==> answer == Ok::<Vec<u8>, Reply>(
            outcome->body,
        ),
{
    match outcome {
        CallOutcome::Unreachable => Err(degraded(dependency)),
        CallOutcome::Answered { status, body } => {
            if status == 200 {
                Ok(body)
            } else if status == 422 {
                Err(forward(422, body))
            } else {
                Err(degraded(dependency))
            }
        },
    }
}

/// What a dependency's outcome means to the evaluation: its integer `result`,
/// or the reply that ends the evaluation.
pub open spec fn spec_answer(dependency: Dependency, outcome: CallOutcome) -> Result<i64, Reply> {
    match spec_ask(dependency, outcome) {
        Err(reply) => Err(reply),
        Ok(body) => match spec_result_of(body@) {
            Some(value) => Ok(value),
            None => Err(Reply::Malformed { dependency }),
        },
    }
}

/// What a dependency's outcome means to the evaluation: its integer `result`,
/// or the reply that ends the evaluation (`500` naming it where a `200` carries
/// no integer `result`).
pub fn answer(dependency: Dependency, outcome: CallOutcome) -> (answer: Result<i64, Reply>)
    ensures
        answer == spec_answer(dependency, outcome),
        (outcome matches CallOutcome::Answered { status, body } && status == 200
            && json_integer_member_of(body@, "result"@) is Some) ==> answer == Ok::<i64, Reply>(
            json_integer_member_of(outcome->body@, "result"@)->Some_0,
        ),
{
    match ask(dependency, outcome) {
        Err(reply) => Err(reply),
        Ok(body) => match result_of(body.as_slice()) {
            Some(value) => Ok(value),
            None => Err(malformed(dependency)),
        },
    }
}

/// Where an evaluation stands.
#[derive(Clone, Copy, PartialEq, Eq, Debug, Structural)]
pub enum Stage {
    AwaitingGcd,
    AwaitingDivide,
    AwaitingMultiply,
    Finished,
}

impl Stage {
    /// The dependency whose answer the stage awaits.
    pub open spec fn spec_awaited(self) -> Option<Dependency> {
        match self {
            Stage::AwaitingGcd => Some(Dependency::Gcd),
            Stage::AwaitingDivide => Some(Dependency::Divide),
            Stage::AwaitingMultiply => Some(Dependency::Multiply),
            Stage::Finished => None,
        }
    }

    /// The dependency whose answer the stage awaits.
    pub fn awaited(&self) -> (dependency: Option<Dependency>)
        ensures
            dependency == self.spec_awaited(),
    {
        match self {
            Stage::AwaitingGcd => Some(Dependency::Gcd),
            Stage::AwaitingDivide => Some(Dependency::Divide),
            Stage::AwaitingMultiply => Some(Dependency::Multiply),
            Stage::Finished => None,
        }
    }
}

/// A call to make: `dependency` with the body `{"a": a, "b": b}`.
#[derive(Clone, Copy, PartialEq, Eq, Debug, Structural)]
pub struct DependencyCall {
    pub dependency: Dependency,
    pub a: i64,
    pub b: i64,
}

/// What the evaluation asks of its caller next.
#[derive(Clone, PartialEq, Eq, Debug)]
pub enum Action {
    /// Make this call and hand its outcome to [`Evaluation::on_outcome`].
    Call(DependencyCall),
    /// Answer the request with this reply; the evaluation is finished.
    Respond(Reply),
}

/// One evaluation of `lcm(a, b)`.
#[derive(Clone, Copy, PartialEq, Eq, Debug, Structural)]
pub struct Evaluation {
    pub a: i64,
    pub b: i64,
    pub stage: Stage,
}

impl Evaluation {
    /// The evaluation finished.
    pub open spec fn finished(self) -> Self {
        Evaluation { stage: Stage::Finished, ..self }
    }

    /// The step of the evaluation on a dependency's answer: the next state and
    /// what to do next.
    pub open spec fn advance_spec(self, answer: Result<i64, Reply>) -> (Evaluation, Action) {
        match answer {
            Err(reply) => (self.finished(), Action::Respond(reply)),
            Ok(value) => match self.stage {
                Stage::AwaitingGcd => if value == 0 {
                    (self.finished(), Action::Respond(Reply::Evaluated(LcmResponse { a: self.a, b: self.b, result: 0 })))
                } else {
                    (
                        Evaluation { stage: Stage::AwaitingDivide, ..self },
                        Action::Call(DependencyCall { dependency: Dependency::Divide, a: self.a, b: value }),
                    )
                },
                Stage::AwaitingDivide => (
                    Evaluation { stage: Stage::AwaitingMultiply, ..self },
                    Action::Call(DependencyCall { dependency: Dependency::Multiply, a: value, b: self.b }),
                ),
                _ => (self.finished(), Action::Respond(Reply::Evaluated(LcmResponse { a: self.a, b: self.b, result: value }))),
            },
        }
    }

    /// The step of the evaluation on the outcome of the awaited call.
    pub open spec fn next(self, outcome: CallOutcome) -> (Evaluation, Action)
        recommends
            self.stage != Stage::Finished,
    {
        self.advance_spec(spec_answer(self.stage.spec_awaited().unwrap(), outcome))
    }

    /// Starts the evaluation of `lcm(a, b)`: the first call is `srvcs-gcd` on
    /// `(a, b)`.
    pub fn start(request: EvalRequest) -> (started: (Evaluation, Action))
        ensures
            started.0 == (Evaluation { a: request.a, b: request.b, stage: Stage::AwaitingGcd }),
            started.1 == Action::Call(DependencyCall { dependency: Dependency::Gcd, a: request.a, b: request.b }),
    {
        (
            Evaluation { a: request.a, b: request.b, stage: Stage::AwaitingGcd },
            Action::Call(DependencyCall { dependency: Dependency::Gcd, a: request.a, b: request.b }),
        )
    }

    /// Whether the evaluation has replied.
    pub fn is_finished(&self) -> (finished: bool)
        ensures
            finished == (self.stage == Stage::Finished),
    {
        match self.stage {
            Stage::Finished => true,
            _ => false,
        }
    }

    /// Takes the awaited dependency's answer (its `result`, or the reply that
    /// ends the evaluation) and says what comes next:
    ///
    /// - a reply ends the evaluation with that reply;
    /// - `gcd == 0` ends it with `0`; any other `g` calls `srvcs-divide` on `(a, g)`;
    /// - `q` from `srvcs-divide` calls `srvcs-multiply` on `(q, b)`;
    /// - `r` from `srvcs-multiply` ends it with `r`.
    pub fn advance(&mut self, answer: Result<i64, Reply>) -> (action: Action)
        requires
            old(self).stage != Stage::Finished,
        ensures
            (*final(self), action) == old(self).advance_spec(answer),
    {
        let value = match answer {
            Err(reply) => {
                self.stage = Stage::Finished;
                return Action::Respond(reply);
            },
            Ok(value) => value,
        };
        match self.stage {
            Stage::AwaitingGcd => {
                if value == 0 {
                    self.stage = Stage::Finished;
                    Action::Respond(ok(self.a, self.b, 0))
                } else {
                    self.stage = Stage::AwaitingDivide;
                    Action::Call(DependencyCall { dependency: Dependency::Divide, a: self.a, b: value })
                }
            },
            Stage::AwaitingDivide => {
                self.stage = Stage::AwaitingMultiply;
                Action::Call(DependencyCall { dependency: Dependency::Multiply, a: value, b: self.b })
            },
            _ => {
                self.stage = Stage::Finished;
                Action::Respond(ok(self.a, self.b, value))
            },
        }
    }

    /// Takes the outcome of the awaited call and says what comes next.
    pub fn on_outcome(&mut self, outcome: CallOutcome) -> (action: Action)
        requires
            old(self).stage != Stage::Finished,
        ensures
            (*final(self), action) == old(self).next(outcome),
    {
        let dependency = self.stage.awaited().unwrap();
        let response = answer(dependency, outcome);
        self.advance(response)
    }
}

/// The reply of an evaluation of `lcm(a, b)` whose calls come back with these
/// outcomes (an outcome of a call that is never made plays no part): the first
/// reply that a dependency's answer forces, else `0` where `gcd` answers `0`,
/// else what `srvcs-multiply` answers.
pub open spec fn lcm_reply(a: i64, b: i64, gcd: CallOutcome, divide: CallOutcome, multiply: CallOutcome) -> Reply {
    match spec_answer(Dependency::Gcd, gcd) {
        Err(reply) => reply,
        Ok(g) => if g == 0 {
            Reply::Evaluated(LcmResponse { a, b, result: 0 })
        } else {
            match spec_answer(Dependency::Divide, divide) {
                Err(reply) => reply,
                Ok(_) => match spec_answer(Dependency::Multiply, multiply) {
                    Err(reply) => reply,
                    Ok(m) => Reply::Evaluated(LcmResponse { a, b, result: m }),
                },
            }
        },
    }
}

/// The protocol of an evaluation. Started on `(a, b)` (see [`Evaluation::start`],
/// whose first call is `srvcs-gcd` on `(a, b)`), it calls `srvcs-divide` on
/// `(a, g)` only after `srvcs-gcd` answered a `g != 0`, then `srvcs-multiply` on
/// `(q, b)` only after `srvcs-divide` answered `q`; it calls each dependency at
/// most once, finishes after at most three calls, and replies with
/// [`lcm_reply`] of the outcomes.
pub proof fn lemma_evaluation_protocol(request: EvalRequest, gcd: CallOutcome, divide: CallOutcome, multiply: CallOutcome)
    ensures
        ({
            let (a, b) = (request.a, request.b);
            let reply = Action::Respond(lcm_reply(a, b, gcd, divide, multiply));
            let first = Evaluation { a, b, stage: Stage::AwaitingGcd }.next(gcd);
            let second = first.0.next(divide);
            let third = second.0.next(multiply);
            &&& first.1 is Respond ==> first.1 == reply && first.0.stage == Stage::Finished
            &&& first.1 is Call ==> first.1 == Action::Call(DependencyCall {
                dependency: Dependency::Divide,
                a,
                b: spec_answer(Dependency::Gcd, gcd)->Ok_0,
            }) && spec_answer(Dependency::Gcd, gcd)->Ok_0 != 0 && first.0.stage == Stage::AwaitingDivide
            &&& (first.1 is Call && second.1 is Respond) ==> second.1 == reply && second.0.stage == Stage::Finished
            &&& (first.1 is Call && second.1 is Call) ==> second.1 == Action::Call(DependencyCall {
                dependency: Dependency::Multiply,
                a: spec_answer(Dependency::Divide, divide)->Ok_0,
                b,
            }) && second.0.stage == Stage::AwaitingMultiply
            &&& (first.1 is Call && second.1 is Call) ==> third.1 == reply && third.0.stage == Stage::Finished
        }),
{
}

/// `gcd(a, b) == 0` ends the evaluation with `0` at once: neither `srvcs-divide`
/// nor `srvcs-multiply` is called.
pub proof fn lemma_zero_gcd_short_circuits(request: EvalRequest, gcd: CallOutcome)
    requires
        spec_answer(Dependency::Gcd, gcd) == Ok::<i64, Reply>(0),
    ensures
        ((Evaluation { a: request.a, b: request.b, stage: Stage::AwaitingGcd }).next(gcd) == (
            Evaluation { a: request.a, b: request.b, stage: Stage::Finished },
            Action::Respond(Reply::Evaluated(LcmResponse { a: request.a, b: request.b, result: 0 })),
        )),
{
}

/// Whatever the stage, a dependency's `422` ends the evaluation with that `422`
/// and the dependency's body, unchanged.
pub proof fn lemma_rejection_is_forwarded(evaluation: Evaluation, body: Vec<u8>)
    requires
        evaluation.stage != Stage::Finished,
    ensures
        (evaluation.next(CallOutcome::Answered { status: 422, body }) == (
            evaluation.finished(),
            Action::Respond(Reply::Forwarded { status: 422, body }),
        )),
        ((Reply::Forwarded { status: 422, body }).spec_status() == 422),
{
}

/// Whatever the stage, an unreachable dependency, or one that answers with a
/// status other than `200` and `422`, ends the evaluation with `503` naming it.
pub proof fn lemma_unavailable_dependency_degrades(evaluation: Evaluation, outcome: CallOutcome)
    requires
        evaluation.stage != Stage::Finished,
        (match outcome {
            CallOutcome::Unreachable => true,
            CallOutcome::Answered { status, .. } => status != 200 && status != 422,
        }),
    ensures
        ({
            let dependency = evaluation.stage.spec_awaited().unwrap();
            &&& evaluation.next(outcome) == (
                evaluation.finished(),
                Action::Respond(Reply::Degraded { dependency }),
            )
            &&& (Reply::Degraded { dependency }).spec_status() == 503
            &&& (Reply::Degraded { dependency }).spec_dependency() == Some(dependency)
        }),
{
}

/// Whatever the stage, a `200` whose body has no integer `result` ends the
/// evaluation with `500` naming the dependency.
pub proof fn lemma_malformed_answer_is_500(evaluation: Evaluation, body: Vec<u8>)
    requires
        evaluation.stage != Stage::Finished,
        spec_result_of(body@) is None,
    ensures
        ({
            let dependency = evaluation.stage.spec_awaited().unwrap();
            &&& evaluation.next(CallOutcome::Answered { status: 200, body }) == (
                evaluation.finished(),
                Action::Respond(Reply::Malformed { dependency }),
            )
            &&& (Reply::Malformed { dependency }).spec_status() == 500
        }),
{
}

/// A successful evaluation replies `200` with the operands it was started on.
pub proof fn lemma_success_echoes_operands(a: i64, b: i64, gcd: CallOutcome, divide: CallOutcome, multiply: CallOutcome)
    ensures
        lcm_reply(a, b, gcd, divide, multiply) is Evaluated ==> {
            &&& lcm_reply(a, b, gcd, divide, multiply)->Evaluated_0.a == a
            &&& lcm_reply(a, b, gcd, divide, multiply)->Evaluated_0.b == b
            &&& lcm_reply(a, b, gcd, divide, multiply).spec_status() == 200
        },
{
}

/// The dependencies that `GET /` reports are the ones an evaluation calls, named
/// as its replies name them, in the order in which it calls them.
pub proof fn lemma_reported_dependencies_are_the_called_ones()
    ensures
        DEPENDS_ON@.len() == 3,
        DEPENDS_ON@[0]@ == Dependency::Gcd.spec_name(),
        DEPENDS_ON@[1]@ == Dependency::Divide.spec_name(),
        DEPENDS_ON@[2]@ == Dependency::Multiply.spec_name(),
{
}

/// A dependency's `200` hands its body on unchanged, whatever the body.
pub proof fn lemma_success_passes_body_on(dependency: Dependency, body: Vec<u8>)
    ensures
        spec_ask(dependency, CallOutcome::Answered { status: 200, body }) == Ok::<Vec<u8>, Reply>(body),
{
}

/// A dependency's `200` whose body holds the integer `result` `value` gives
/// the evaluation `value`, for every `i64` `value`.
pub proof fn lemma_integer_result_is_taken(dependency: Dependency, body: Vec<u8>, value: i64)
    requires
        json_integer_member_of(body@, "result"@) == Some(value),
    ensures
        spec_answer(dependency, CallOutcome::Answered { status: 200, body }) == Ok::<i64, Reply>(value),
{
}

/// End to end: where `srvcs-gcd` answers `200` with the integer result `g != 0`,
/// `srvcs-divide` with `q` and `srvcs-multiply` with `m`, the evaluation calls
/// `srvcs-divide` on `(a, g)`, then `srvcs-multiply` on `(q, b)`, and replies
/// `200` with `{a, b, result: m}`, for all such integers.
pub proof fn lemma_integer_answers_are_composed(
    a: i64,
    b: i64,
    gcd_body: Vec<u8>,
    divide_body: Vec<u8>,
    multiply_body: Vec<u8>,
    g: i64,
    q: i64,
    m: i64,
)
    requires
        json_integer_member_of(gcd_body@, "result"@) == Some(g),
        g != 0,
        json_integer_member_of(divide_body@, "result"@) == Some(q),
        json_integer_member_of(multiply_body@, "result"@) == Some(m),
    ensures
        ({
            let gcd = CallOutcome::Answered { status: 200, body: gcd_body };
            let divide = CallOutcome::Answered { status: 200, body: divide_body };
            let multiply = CallOutcome::Answered { status: 200, body: multiply_body };
            let first = (Evaluation { a, b, stage: Stage::AwaitingGcd }).next(gcd);
            let second = first.0.next(divide);
            let third = second.0.next(multiply);
            &&& first.1 == Action::Call(DependencyCall { dependency: Dependency::Divide, a, b: g })
            &&& second.1 == Action::Call(DependencyCall { dependency: Dependency::Multiply, a: q, b })
            &&& third.1 == Action::Respond(Reply::Evaluated(LcmResponse { a, b, result: m }))
            &&& third.0.stage == Stage::Finished
            &&& lcm_reply(a, b, gcd, divide, multiply) == Reply::Evaluated(LcmResponse { a, b, result: m })
        }),
{
}

} // verus!
