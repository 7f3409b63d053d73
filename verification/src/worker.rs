//! The queue worker's decisions: reading one job payload, normalizing
//! its input, and building the result envelope that is published to
//! the result store.

use vstd::prelude::*;
use vstd::string::*;
use crate::engine::EngineOutcome;
use crate::engine::Status;
use crate::json::empty_object;
use crate::json::field_of;
use crate::json::int_of;
use crate::json::is_object_of;
use crate::json::json_wf;
use crate::json::parse_json;
use crate::json::parsed_json;
use crate::json::str_of;
use crate::json::value_as_i64;
use crate::json::value_as_str;
use crate::json::value_clone;
use crate::json::value_get;
use crate::json::value_is_object;
use crate::json::value_text;
use crate::text::dec_str_i64;
use crate::text::i64_to_string;

verus! {

/// The prefix of the result-store key of every invocation.
pub const RESULT_KEY_PREFIX: &'static str = "result:";

/// One dequeued job: the caller-assigned identifier, the untrusted
/// source text, and the input value the program is run with.
pub struct ExecutionRequest {
    pub invocation_id: i64,
    pub code: String,
    pub input: serde_json::Value,
}

/// The envelope published for one finished invocation.
pub struct ExecutionResult {
    pub invocation_id: i64,
    pub status: Status,
    /// The raw output reparsed as JSON, present only on success and
    /// only when it parses.
    pub output: Option<serde_json::Value>,
    pub output_raw: String,
    pub error_message: String,
    pub logs: String,
    pub duration_ms: u64,
}

/// The payload's integer `invocationId`, when the text is well-formed
/// JSON and carries one.
pub open spec fn payload_invocation_id(s: Seq<char>) -> Option<i64> {
    match parsed_json(s) {
        Some(doc) => match field_of(doc, "invocationId"@) {
            Some(f) => int_of(f),
            None => None,
        },
        None => None,
    }
}

/// The payload's string `code`, when the text is well-formed JSON and
/// carries one.
pub open spec fn payload_code(s: Seq<char>) -> Option<Seq<char>> {
    match parsed_json(s) {
        Some(doc) => match field_of(doc, "code"@) {
            Some(f) => str_of(f),
            None => None,
        },
        None => None,
    }
}

/// The payload's `input` field, when the text is well-formed JSON and
/// the field is present.
pub open spec fn payload_input(s: Seq<char>) -> Option<serde_json::Value> {
    match parsed_json(s) {
        Some(doc) => field_of(doc, "input"@),
        None => None,
    }
}

/// Whether a payload text is an acceptable job: well-formed JSON with
/// an integer `invocationId` and a string `code`.
pub open spec fn payload_acceptable(s: Seq<char>) -> bool {
    payload_invocation_id(s) is Some && payload_code(s) is Some
}

/// Builds a request from the fields read out of the payload: both the
/// identifier and the code are required, the input has already been
/// normalized.
pub fn assemble_request(invocation_id: Option<i64>, code: Option<String>, input: serde_json::Value)
    -> (r: Option<ExecutionRequest>)
    ensures
        r is Some <==> (invocation_id is Some && code is Some),
        r is Some ==> (r->0.invocation_id == invocation_id->0 && r->0.code == code->0 && r->0.input
            == input),
{
    match (invocation_id, code) {
        (Some(id), Some(c)) => Some(ExecutionRequest { invocation_id: id, code: c, input }),
        _ => None,
    }
}

/// The request's `input` as the engine takes it: a present object is
/// kept as it is; a missing or non-object input becomes the empty
/// object, whose encoding is `{}`.
fn normalize_input(field: Option<&serde_json::Value>) -> (r: serde_json::Value)
    ensures
        is_object_of(r),
        (field matches Some(v) ==> (if is_object_of(*v) {
            r == *v
        } else {
            value_text(r) == "{}"@
        })),
        (field is None ==> value_text(r) == "{}"@),
{
    match field {
        Some(v) => if value_is_object(v) {
            value_clone(v)
        } else {
            empty_object()
        },
        None => empty_object(),
    }
}

/// Reads one queue payload. `None` means the payload is malformed —
/// not JSON, or without an integer `invocationId` or a string `code` —
/// and the job is dropped without a published result. A parsed
/// request echoes the payload's identifier and code exactly, and its
/// input is the payload's `input` field when that is an object, else
/// the empty object.
pub fn parse_request(raw: &str) -> (r: Option<ExecutionRequest>)
    ensures
        r is Some <==> payload_acceptable(raw@),
        !json_wf(raw@) ==> r is None,
        (r matches Some(req) ==> (req.invocation_id == payload_invocation_id(raw@)->0 && req.code@
            == payload_code(raw@)->0 && is_object_of(req.input))),
        (r matches Some(req) ==> (payload_input(raw@) matches Some(v) ==> (if is_object_of(v) {
            req.input == v
        } else {
            value_text(req.input) == "{}"@
        }))),
        (r matches Some(req) ==> (payload_input(raw@) is None ==> value_text(req.input)
            == "{}"@)),
{
    let doc = match parse_json(raw) {
        Some(d) => d,
        None => {
            return None;
        },
    };
    let invocation_id = match value_get(&doc, "invocationId") {
        Some(field) => value_as_i64(field),
        None => None,
    };
    let code = match value_get(&doc, "code") {
        Some(field) => match value_as_str(field) {
            Some(s) => Some(String::from_str(s)),
            None => None,
        },
        None => None,
    };
    let input = normalize_input(value_get(&doc, "input"));
    assemble_request(invocation_id, code, input)
}

/// What the loop does after one poll of the queue: keep waiting, run
/// the dequeued job, or drop a malformed payload without publishing
/// anything for it.
pub enum LoopAction {
    Idle,
    RunJob(ExecutionRequest),
    DropJob,
}

/// One transition of the worker loop out of its waiting state. No job
/// keeps the loop idle; a dequeued payload is run exactly when it is
/// acceptable — the job then carries the payload's identifier and
/// code — and dropped otherwise, so a malformed payload never reaches
/// the publishing path.
pub fn poll_transition(popped: Option<String>) -> (r: LoopAction)
    ensures
        popped is None <==> r is Idle,
        (popped matches Some(raw) ==> (if payload_acceptable(raw@) {
            r matches LoopAction::RunJob(req) && req.invocation_id == payload_invocation_id(
                raw@,
            )->0 && req.code@ == payload_code(raw@)->0 && is_object_of(req.input)
        } else {
            r is DropJob
        })),
{
    match popped {
        None => LoopAction::Idle,
        Some(raw) => match parse_request(raw.as_str()) {
            Some(req) => LoopAction::RunJob(req),
            None => LoopAction::DropJob,
        },
    }
}

/// Builds the envelope for one finished invocation: the engine's
/// payload becomes the raw output, and on failure also the error
/// message; on success a non-empty raw output is reparsed as JSON
/// best-effort, and `output` is exactly what that reparse returns.
pub fn finish_job(invocation_id: i64, outcome: EngineOutcome, duration_ms: u64) -> (r:
    ExecutionResult)
    ensures
        r.invocation_id == invocation_id,
        r.status == outcome.status,
        r.duration_ms == duration_ms,
        r.output_raw == outcome.payload,
        r.logs == outcome.logs,
        outcome.status is Success ==> r.error_message@ == Seq::<char>::empty(),
        !(outcome.status is Success) ==> r.error_message == outcome.payload,
        r.output == (if outcome.status is Success && outcome.payload@.len() > 0 {
            parsed_json(outcome.payload@)
        } else {
            None
        }),
        r.output is Some <==> (outcome.status is Success && outcome.payload@.len() > 0 && json_wf(
            outcome.payload@,
        )),
{
    let is_success = outcome.status.is_success();
    let output: Option<serde_json::Value> = if is_success && !outcome.payload.as_str().is_empty() {
        parse_json(outcome.payload.as_str())
    } else {
        None
    };
    let error_message = if is_success {
        String::new()
    } else {
        outcome.payload.clone()
    };
    ExecutionResult {
        invocation_id,
        status: outcome.status,
        output,
        output_raw: outcome.payload,
        error_message,
        logs: outcome.logs,
        duration_ms,
    }
}

/// The result-store key of one invocation: the fixed prefix, then the
/// identifier in decimal.
pub fn result_key(invocation_id: i64) -> (r: String)
    ensures
        r@ == RESULT_KEY_PREFIX@ + dec_str_i64(invocation_id as int),
{
    String::from_str(RESULT_KEY_PREFIX).concat(i64_to_string(invocation_id).as_str())
}

/// Law: for a program run that exits zero, the envelope the worker
/// publishes reports SUCCESS, carries the trimmed standard output as
/// the raw output with an empty error message, and its `output` is
/// exactly what reparsing that trimmed text returns — present exactly
/// when the text is non-empty, well-formed JSON.
pub proof fn lemma_success_envelope(stdout: Seq<char>, outcome: EngineOutcome, r: ExecutionResult)
    requires
        outcome.status is Success,
        outcome.payload@ == crate::text::trim_spec(stdout),
        r.status == outcome.status,
        r.output_raw == outcome.payload,
        outcome.status is Success ==> r.error_message@ == Seq::<char>::empty(),
        r.output == (if outcome.status is Success && outcome.payload@.len() > 0 {
            parsed_json(outcome.payload@)
        } else {
            None
        }),
    ensures
        r.status is Success,
        r.output_raw@ == crate::text::trim_spec(stdout),
        r.error_message@ == Seq::<char>::empty(),
        r.output == (if crate::text::trim_spec(stdout).len() > 0 {
            parsed_json(crate::text::trim_spec(stdout))
        } else {
            None
        }),
        r.output is Some <==> (crate::text::trim_spec(stdout).len() > 0 && json_wf(
            crate::text::trim_spec(stdout),
        )),
{
}

} // verus!
