use vstd::prelude::*;
use vstd::string::StringExecFns;
use serde_json::Value;
use crate::error::TimberlogsError;
use crate::json::{bool_at, json_bool_at, json_str_at, json_u64_at, parse_json, parsed_json, str_at, u64_at};
use crate::record::Flow;
use crate::config::RetryConfig;
use crate::retry::{
    AttemptOutcome, RetryStep, is_success_status, lemma_recovers_after_failures, run_attempts,
    start_state, step_action, success_status,
};

verus! {

/// Whether a parsed answer is an acknowledgement: a boolean `success` and a
/// `count` that fits in 32 bits.
pub open spec fn is_ack(v: Value) -> bool {
    &&& json_bool_at(v, "success"@) is Some
    &&& json_u64_at(v, "count"@) is Some
    &&& json_u64_at(v, "count"@)->0 <= u32::MAX
}

/// The outcome of a 2xx answer whose body parsed as `v`.
pub fn ack_outcome(v: &Value) -> (r: AttemptOutcome)
    ensures
        is_ack(*v) ==> r is Delivered,
        !is_ack(*v) ==> r is InvalidAck,
{
    let success = bool_at(v, "success");
    let count = u64_at(v, "count");
    match (success, count) {
        (Some(_), Some(n)) => if n <= u32::MAX as u64 {
            AttemptOutcome::Delivered
        } else {
            AttemptOutcome::InvalidAck(String::from_str("count does not fit in 32 bits"))
        },
        (None, _) => AttemptOutcome::InvalidAck(String::from_str("missing boolean field `success`")),
        (_, None) => AttemptOutcome::InvalidAck(String::from_str("missing integer field `count`")),
    }
}

/// `o` is how an answer with `status` and `body` is classified.
pub open spec fn classified(status: u16, body: String, o: AttemptOutcome) -> bool {
    &&& !success_status(status) ==> o == (AttemptOutcome::Http { status, body })
    &&& success_status(status) ==> match parsed_json(body@) {
        Some(v) => (is_ack(v) ==> o is Delivered) && (!is_ack(v) ==> o is InvalidAck),
        None => o is InvalidAck,
    }
}

/// Classifies an answer of the ingestion endpoint: a non-2xx status is a
/// retryable HTTP error carrying the body verbatim; a 2xx one is delivered
/// when its body is an acknowledgement.
pub fn classify_response(status: u16, body: String) -> (r: AttemptOutcome)
    ensures
        classified(status, body, r),
{
    if !is_success_status(status) {
        return AttemptOutcome::Http { status, body };
    }
    match parse_json(body.as_str()) {
        Ok(v) => ack_outcome(&v),
        Err(m) => AttemptOutcome::InvalidAck(m),
    }
}

/// A flow handle from the registration answer `{ flowId, name }`.
pub fn read_flow_response(v: &Value) -> (r: Result<Flow, TimberlogsError>)
    ensures
        (json_str_at(*v, "flowId"@) is Some && json_str_at(*v, "name"@) is Some) <==> r is Ok,
        r is Ok ==> r->Ok_0.id_view() == json_str_at(*v, "flowId"@)->0
            && r->Ok_0.name_view() == json_str_at(*v, "name"@)->0
            && r->Ok_0.next_step() == 0,
{
    match (str_at(v, "flowId"), str_at(v, "name")) {
        (Some(id), Some(name)) => Ok(Flow::new(id, name)),
        _ => Err(TimberlogsError::Request(String::from_str("flow response lacks `flowId` or `name`"))),
    }
}

/// The result of a request whose answer carries nothing to read: a 2xx
/// status is success, any other an HTTP error with the body verbatim.
pub fn check_status(status: u16, body: String) -> (r: Result<(), TimberlogsError>)
    ensures
        success_status(status) ==> r is Ok,
        !success_status(status) ==> r == Err::<(), TimberlogsError>(TimberlogsError::Http { status, body }),
{
    if is_success_status(status) {
        Ok(())
    } else {
        Err(TimberlogsError::Http { status, body })
    }
}

/// A flow handle from the answer of the registration endpoint: a non-2xx
/// status is an HTTP error; a 2xx body must parse as `{ flowId, name }`.
pub fn read_flow_answer(status: u16, body: String) -> (r: Result<Flow, TimberlogsError>)
    ensures
        !success_status(status) ==> r == Err::<Flow, TimberlogsError>(TimberlogsError::Http { status, body }),
        success_status(status) ==> match parsed_json(body@) {
            Some(v) => {
                &&& (json_str_at(v, "flowId"@) is Some && json_str_at(v, "name"@) is Some) <==> r is Ok
                &&& r is Ok ==> r->Ok_0.id_view() == json_str_at(v, "flowId"@)->0
                    && r->Ok_0.name_view() == json_str_at(v, "name"@)->0
                    && r->Ok_0.next_step() == 0
            },
            None => r is Err && r->Err_0 is Request,
        },
{
    if !is_success_status(status) {
        return Err(TimberlogsError::Http { status, body });
    }
    match parse_json(body.as_str()) {
        Ok(v) => read_flow_response(&v),
        Err(m) => Err(TimberlogsError::Request(m)),
    }
}

/// A send with a retry to spare whose first answer is a non-2xx status and
/// whose second is a 2xx acknowledgement waits the initial delay once and
/// succeeds after exactly two attempts.
pub proof fn lemma_error_then_ack(
    policy: RetryConfig,
    status1: u16,
    body1: String,
    first: AttemptOutcome,
    status2: u16,
    body2: String,
    second: AttemptOutcome,
)
    requires
        policy.max_retries >= 1,
        !success_status(status1),
        classified(status1, body1, first),
        success_status(status2),
        parsed_json(body2@) is Some && is_ack(parsed_json(body2@)->0),
        classified(status2, body2, second),
    ensures
        step_action(start_state(policy), first) == RetryStep::Wait(policy.initial_delay_ms),
        run_attempts(start_state(policy), seq![first, second]) == Some::<(Result<(), TimberlogsError>, nat)>((Ok(()), 2)),
{
    let failures = seq![first];
    assert(failures.push(second) =~= seq![first, second]);
    lemma_recovers_after_failures(start_state(policy), failures);
}

/// A 2xx answer whose body is an acknowledgement ends the send with success
/// at once.
pub proof fn lemma_ack_delivers(policy: RetryConfig, status: u16, body: String, o: AttemptOutcome)
    requires
        success_status(status),
        parsed_json(body@) is Some && is_ack(parsed_json(body@)->0),
        classified(status, body, o),
    ensures
        run_attempts(start_state(policy), seq![o]) == Some::<(Result<(), TimberlogsError>, nat)>((Ok(()), 1)),
{
}

} // verus!
