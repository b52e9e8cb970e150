//! The decisions of one `execute` call: wrapping the user's code, seeding
//! the input binding, the deadline re-check after evaluation, converting
//! the settled value, and the exact error message for every failure.
//!
//! The evaluator itself runs outside the library; it reports back what it
//! observed as an [`EvalOutcome`], and [`settle`] turns that observation
//! into the final verdict of the call.
use vstd::prelude::*;
use crate::json::{JsonValue, spec_json_text, json_text};
use crate::script::{ScriptValue, CodecError, spec_to_json, script_to_json};

verus! {

/// The outcome of one execution: the converted result value and the full
/// console transcript, in emission order.
#[derive(Debug)]
pub struct ExecutionResult {
    /// The script's settled value, converted to JSON.
    pub value: JsonValue,
    /// Every console line the script produced, oldest first.
    pub console_output: Vec<String>,
}

/// Why one `execute` call failed.
#[derive(Debug)]
pub enum ExecError {
    /// The evaluation environment could not be set up; carries the
    /// evaluator's description.
    ResourceInit(String),
    /// Evaluating the wrapped script threw: a parse failure or a
    /// synchronous error.
    Evaluation(String),
    /// The script's pending computation settled with a rejection.
    Resolution(String),
    /// The deadline had passed by the time evaluation finished.
    Timeout,
    /// The settled value has no faithful JSON representation.
    Serialization(CodecError),
}

impl ExecError {
    /// The message this failure reports to the caller.
    pub fn message(&self) -> (r: String)
        ensures
            r@ == spec_error_message(*self),
    {
        match self {
            ExecError::ResourceInit(detail) => detail.clone(),
            ExecError::Evaluation(detail) => {
                let mut m = String::from_str("JavaScript execution error: ");
                m.append(detail.as_str());
                m
            },
            ExecError::Resolution(detail) => {
                let mut m = String::from_str("Promise resolution error: ");
                m.append(detail.as_str());
                m
            },
            ExecError::Timeout => String::from_str("Execution timeout exceeded"),
            ExecError::Serialization(e) => e.message(),
        }
    }
}

/// The message each failure reports.
pub open spec fn spec_error_message(e: ExecError) -> Seq<char> {
    match e {
        ExecError::ResourceInit(detail) => detail@,
        ExecError::Evaluation(detail) => "JavaScript execution error: "@ + detail@,
        ExecError::Resolution(detail) => "Promise resolution error: "@ + detail@,
        ExecError::Timeout => "Execution timeout exceeded"@,
        ExecError::Serialization(_) => "Invalid float value"@,
    }
}

/// An error the evaluator reported, joined from its message and its stack
/// trace: the stack goes on a second line when there is one.
pub open spec fn spec_error_parts(message: Seq<char>, stack: Seq<char>) -> Seq<char> {
    if stack.len() == 0 {
        message
    } else {
        message + "\n"@ + stack
    }
}

/// Joins an evaluator error's message and stack trace.
pub fn format_error_parts(message: &str, stack: &str) -> (r: String)
    ensures
        r@ == spec_error_parts(message@, stack@),
{
    if stack.unicode_len() == 0 {
        String::from_str(message)
    } else {
        let mut m = String::from_str(message);
        m.append("\n");
        m.append(stack);
        m
    }
}

/// The wrapped form of the user's code: the body of an asynchronous
/// `main(input)` whose call yields the script's eventual result, so a
/// top-level `return` and a top-level `await` are both valid.
pub open spec fn spec_wrapped(code: Seq<char>) -> Seq<char> {
    "(async function main(input) {\n    "@ + code + "\n})(globalThis.__userInput)"@
}

/// Wraps the user's code for evaluation.
pub fn wrap_code(code: &str) -> (r: String)
    ensures
        r@ == spec_wrapped(code@),
{
    let mut out = String::from_str("(async function main(input) {\n    ");
    out.append(code);
    out.append("\n})(globalThis.__userInput)");
    out
}

/// The statement that seeds the script's input binding: the caller's
/// value as JSON text, or an explicit absence.
pub open spec fn spec_input_binding(input: Option<JsonValue>) -> Seq<char> {
    match input {
        Some(v) => "globalThis.__userInput = "@ + spec_json_text(v.model()) + ";"@,
        None => "globalThis.__userInput = undefined;"@,
    }
}

/// Renders the statement that seeds the script's input binding.
pub fn input_binding(input: Option<&JsonValue>) -> (r: String)
    ensures
        match input {
            Some(v) => r@ == spec_input_binding(Some(*v)),
            None => r@ == spec_input_binding(None),
        },
{
    match input {
        Some(v) => {
            let mut out = String::from_str("globalThis.__userInput = ");
            out.append(json_text(v).as_str());
            out.append(";");
            out
        },
        None => String::from_str("globalThis.__userInput = undefined;"),
    }
}

/// Has the deadline passed? The check the evaluator polls between steps,
/// and the re-check made after evaluation completes.
pub fn deadline_exceeded(elapsed_ms: u64, timeout_ms: u64) -> (r: bool)
    ensures
        r == (elapsed_ms > timeout_ms),
{
    elapsed_ms > timeout_ms
}

/// What the evaluator reported for one wrapped script.
pub enum EvalOutcome {
    /// The script's computation settled with this value.
    Value(ScriptValue),
    /// Evaluation itself threw; message and stack trace as reported.
    EvalError { message: String, stack: String },
    /// The computation settled with a rejection; message and stack trace
    /// as reported.
    ResolutionError { message: String, stack: String },
}

/// Turns the evaluator's report into the call's verdict. An evaluation
/// or resolution error is fatal with the matching message; a settled
/// value is accepted only if the deadline has not passed, and is then
/// converted to JSON — a value with no JSON representation fails the
/// call. The console transcript rides along only with success.
pub fn settle(
    outcome: EvalOutcome,
    elapsed_ms: u64,
    timeout_ms: u64,
    console_output: Vec<String>,
) -> (r: Result<ExecutionResult, ExecError>)
    ensures
        match outcome {
            EvalOutcome::EvalError { message, stack } => r matches Err(
                ExecError::Evaluation(m),
            ) && m@ == spec_error_parts(message@, stack@),
            EvalOutcome::ResolutionError { message, stack } => r matches Err(
                ExecError::Resolution(m),
            ) && m@ == spec_error_parts(message@, stack@),
            EvalOutcome::Value(v) => {
                if elapsed_ms > timeout_ms {
                    r matches Err(ExecError::Timeout)
                } else {
                    match spec_to_json(v.model()) {
                        None => r matches Err(ExecError::Serialization(_)),
                        Some(j) => r matches Ok(res) && res.value.model() == j
                            && res.console_output == console_output,
                    }
                }
            },
        },
{
    match outcome {
        EvalOutcome::EvalError { message, stack } => Err(
            ExecError::Evaluation(format_error_parts(message.as_str(), stack.as_str())),
        ),
        EvalOutcome::ResolutionError { message, stack } => Err(
            ExecError::Resolution(format_error_parts(message.as_str(), stack.as_str())),
        ),
        EvalOutcome::Value(v) => {
            if deadline_exceeded(elapsed_ms, timeout_ms) {
                return Err(ExecError::Timeout);
            }
            match script_to_json(&v) {
                Ok(value) => Ok(ExecutionResult { value, console_output }),
                Err(e) => Err(ExecError::Serialization(e)),
            }
        },
    }
}

} // verus!
