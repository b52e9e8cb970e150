//! Pre-execution validation and the response a caller receives: code
//! screening, clamping of the requested limits to their hard caps, and
//! assembly of the structured response, including the caller-convention
//! `skip_reason` / `error_reason` fields read out of a result object.
use vstd::prelude::*;
use vstd::string::StringSliceAdditionalSpecFns;
use crate::json::{JsonValue, SpecJson, spec_field_of, get_field};
use crate::exec::ExecutionResult;

verus! {

/// The hard cap on submitted code, in bytes.
pub const MAX_CODE_SIZE: usize = 102400;

/// The hard cap on the requested timeout, in milliseconds.
pub const MAX_TIMEOUT_MS: u64 = 25000;

/// The hard cap on the requested memory ceiling, in bytes.
pub const MAX_MEMORY_LIMIT: usize = 52428800;

/// Why a request was rejected before anything ran.
#[derive(Debug, PartialEq, Eq, Structural)]
pub enum ValidationError {
    /// The submitted code is empty.
    EmptyCode,
    /// The submitted code exceeds the size cap.
    CodeTooLarge,
}

impl ValidationError {
    /// The message this rejection reports.
    pub fn message(&self) -> (r: String)
        ensures
            match self {
                ValidationError::EmptyCode => r@ == "Code cannot be empty"@,
                ValidationError::CodeTooLarge => r@
                    == "Code size exceeds maximum of 102400 bytes"@,
            },
    {
        match self {
            ValidationError::EmptyCode => String::from_str("Code cannot be empty"),
            ValidationError::CodeTooLarge => String::from_str(
                "Code size exceeds maximum of 102400 bytes",
            ),
        }
    }
}

/// Screens submitted code: it must be non-empty and within the size cap.
pub fn validate_code(code: &str) -> (r: Result<(), ValidationError>)
    ensures
        match r {
            Ok(_) => code@.len() > 0 && code.spec_bytes().len() <= MAX_CODE_SIZE,
            Err(ValidationError::EmptyCode) => code@.len() == 0,
            Err(ValidationError::CodeTooLarge) => code@.len() > 0 && code.spec_bytes().len()
                > MAX_CODE_SIZE,
        },
{
    if code.is_empty() {
        Err(ValidationError::EmptyCode)
    } else if code.as_bytes().len() > MAX_CODE_SIZE {
        Err(ValidationError::CodeTooLarge)
    } else {
        Ok(())
    }
}

/// Clamps the requested timeout to its hard cap.
pub fn clamp_timeout(requested_ms: u64) -> (r: u64)
    ensures
        r == if requested_ms <= MAX_TIMEOUT_MS {
            requested_ms as int
        } else {
            MAX_TIMEOUT_MS as int
        },
{
    if requested_ms <= MAX_TIMEOUT_MS {
        requested_ms
    } else {
        MAX_TIMEOUT_MS
    }
}

/// Clamps the requested memory ceiling to its hard cap.
pub fn clamp_memory(requested_bytes: usize) -> (r: usize)
    ensures
        r == if requested_bytes <= MAX_MEMORY_LIMIT {
            requested_bytes as int
        } else {
            MAX_MEMORY_LIMIT as int
        },
{
    if requested_bytes <= MAX_MEMORY_LIMIT {
        requested_bytes
    } else {
        MAX_MEMORY_LIMIT
    }
}

/// The string stored under `key` when the value is an object holding a
/// string there; `None` otherwise.
pub open spec fn spec_reason_of(j: SpecJson, key: Seq<char>) -> Option<Seq<char>> {
    match spec_field_of(j, key) {
        Some(SpecJson::Str(t)) => Some(t),
        _ => None,
    }
}

/// Reads a caller-convention reason field (a string under `key`) out of a
/// result value.
pub fn extract_reason(value: &JsonValue, key: &str) -> (r: Option<String>)
    ensures
        match r {
            Some(t) => spec_reason_of(value.model(), key@) == Some(t@),
            None => spec_reason_of(value.model(), key@) is None,
        },
{
    match get_field(value, key) {
        Some(field) => match field {
            JsonValue::Str(t) => Some(t.clone()),
            _ => None,
        },
        None => None,
    }
}

/// The structured response of one invocation.
#[derive(Debug)]
pub struct ExecuteResponse {
    /// Did the execution produce a result?
    pub success: bool,
    /// The result value; present exactly on success.
    pub result: Option<JsonValue>,
    /// The failure message; present exactly on failure.
    pub error: Option<String>,
    /// The `skip_reason` string the script put in its result, if any.
    pub skip_reason: Option<String>,
    /// The `error_reason` string the script put in its result, or the
    /// failure message on an unexpected failure.
    pub error_reason: Option<String>,
    /// Wall time the call took, in milliseconds.
    pub execution_time_ms: u128,
    /// The console transcript; empty on failure.
    pub console_output: Vec<String>,
}

/// Assembles the response for a completed execution: the result rides
/// along verbatim, and the caller-convention `skip_reason` and
/// `error_reason` strings are read out of it when present.
pub fn build_success_response(result: ExecutionResult, execution_time_ms: u128) -> (r:
    ExecuteResponse)
    ensures
        r.success,
        r.result matches Some(v) && v.model() == result.value.model(),
        r.error is None,
        match r.skip_reason {
            Some(t) => spec_reason_of(result.value.model(), "skip_reason"@) == Some(t@),
            None => spec_reason_of(result.value.model(), "skip_reason"@) is None,
        },
        match r.error_reason {
            Some(t) => spec_reason_of(result.value.model(), "error_reason"@) == Some(t@),
            None => spec_reason_of(result.value.model(), "error_reason"@) is None,
        },
        r.execution_time_ms == execution_time_ms,
        r.console_output == result.console_output,
{
    let skip_reason = extract_reason(&result.value, "skip_reason");
    let error_reason = extract_reason(&result.value, "error_reason");
    ExecuteResponse {
        success: true,
        result: Some(result.value),
        error: None,
        skip_reason,
        error_reason,
        execution_time_ms,
        console_output: result.console_output,
    }
}

/// Assembles the response for a request rejected before anything ran:
/// the message stands in `error` alone — `error_reason` is reserved for
/// failures of an execution itself — and no time was spent.
pub fn build_validation_response(message: String) -> (r: ExecuteResponse)
    ensures
        !r.success,
        r.result is None,
        r.error matches Some(m) && m@ == message@,
        r.skip_reason is None,
        r.error_reason is None,
        r.execution_time_ms == 0,
        r.console_output@ =~= Seq::<String>::empty(),
{
    ExecuteResponse {
        success: false,
        result: None,
        error: Some(message),
        skip_reason: None,
        error_reason: None,
        execution_time_ms: 0,
        console_output: Vec::new(),
    }
}

/// Assembles the response for a failed execution: no result, no console
/// transcript, and the failure message doubled into `error_reason` so
/// callers that only read reasons still see it.
pub fn build_failure_response(message: String, execution_time_ms: u128) -> (r: ExecuteResponse)
    ensures
        !r.success,
        r.result is None,
        r.error matches Some(m) && m@ == message@,
        r.skip_reason is None,
        r.error_reason matches Some(m) && m@ == message@,
        r.execution_time_ms == execution_time_ms,
        r.console_output@ =~= Seq::<String>::empty(),
{
    let error_reason = message.clone();
    ExecuteResponse {
        success: false,
        result: None,
        error: Some(message),
        skip_reason: None,
        error_reason: Some(error_reason),
        execution_time_ms,
        console_output: Vec::new(),
    }
}

} // verus!
