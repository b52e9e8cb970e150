use js_sandbox::console::{join_spaces, severity_prefix, Console, Severity};
use js_sandbox::exec::{
    deadline_exceeded, format_error_parts, input_binding, settle, wrap_code, EvalOutcome,
    ExecError,
};
use js_sandbox::handler::{
    build_failure_response, build_success_response, build_validation_response, clamp_memory,
    clamp_timeout, extract_reason, validate_code, ValidationError,
};
use js_sandbox::json::JsonValue;
use js_sandbox::sanitize::{sanitize_plan, SanitizeStep};
use js_sandbox::script::ScriptValue;
use js_sandbox::text::{ascii_upper, i64_to_string, str_ends_with, str_eq, str_starts_with,
    u64_to_string};
use js_sandbox::{default_memory_limit, default_stack_limit, default_timeout};

#[test]
fn test_console_output() {
    let mut console = Console::new();
    let message = join_spaces(&vec!["Hello".to_string(), "World".to_string()]);
    console.log(message);
    let output = console.get_output();
    assert!(output.contains(&"[log] Hello World".to_string()));
}

#[test]
fn console_keeps_emission_order() {
    // log("a") then log("b") must yield exactly ["[log] a", "[log] b"].
    let mut console = Console::new();
    console.log("a".to_string());
    console.log("b".to_string());
    assert_eq!(console.get_output(), vec!["[log] a", "[log] b"]);
    assert_eq!(console.len(), 2);
}

#[test]
fn console_records_every_severity() {
    let mut console = Console::new();
    console.record(Severity::Info, "i".to_string());
    console.record(Severity::Warn, "w".to_string());
    console.record(Severity::Error, "e".to_string());
    console.record(Severity::Debug, "d".to_string());
    assert_eq!(
        console.get_output(),
        vec!["[info] i", "[warn] w", "[error] e", "[debug] d"]
    );
    assert_eq!(severity_prefix(Severity::Log), "[log] ");
}

#[test]
fn join_spaces_glues_arguments() {
    assert_eq!(join_spaces(&Vec::new()), "");
    assert_eq!(join_spaces(&vec!["one".to_string()]), "one");
    assert_eq!(
        join_spaces(&vec!["a".to_string(), "b".to_string(), "c".to_string()]),
        "a b c"
    );
}

#[test]
fn test_infinite_loop_timeout() {
    // The deadline had passed when evaluation came back: the call fails
    // with the timeout-classified error even though a value arrived.
    assert!(deadline_exceeded(150, 100));
    assert!(!deadline_exceeded(100, 100));
    let result = settle(EvalOutcome::Value(ScriptValue::Null), 150, 100, Vec::new());
    let err = match result {
        Err(e) => e,
        Ok(_) => panic!("expected a timeout"),
    };
    let msg = err.message();
    assert!(msg.contains("timeout") || msg.contains("interrupt"));
    assert_eq!(msg, "Execution timeout exceeded");
}

#[test]
fn test_syntax_error() {
    let result = settle(
        EvalOutcome::EvalError {
            message: "SyntaxError: unexpected token".to_string(),
            stack: String::new(),
        },
        1,
        5000,
        Vec::new(),
    );
    assert!(result.is_err());
    let msg = result.unwrap_err().message();
    assert_eq!(msg, "JavaScript execution error: SyntaxError: unexpected token");
}

#[test]
fn test_promise_rejection() {
    let result = settle(
        EvalOutcome::ResolutionError {
            message: "Error: Promise rejected".to_string(),
            stack: String::new(),
        },
        1,
        5000,
        Vec::new(),
    );
    let msg = result.unwrap_err().message();
    assert!(msg.contains("Promise rejected"));
    assert!(msg.starts_with("Promise resolution error: "));
}

#[test]
fn test_throw_custom_error() {
    let result = settle(
        EvalOutcome::ResolutionError {
            message: "Error: Custom error message".to_string(),
            stack: "    at main".to_string(),
        },
        1,
        5000,
        Vec::new(),
    );
    let msg = result.unwrap_err().message();
    assert!(msg.contains("Custom error message"));
    assert!(msg.contains("    at main"));
}

#[test]
fn test_user_return_nothing() {
    // A script with no explicit result settles as undefined, which is
    // reported as JSON null.
    let result = settle(
        EvalOutcome::Value(ScriptValue::Undefined),
        1,
        5000,
        Vec::new(),
    )
    .unwrap();
    assert_eq!(result.value, JsonValue::Null);
}

#[test]
fn test_user_return_empty_object() {
    let result = settle(
        EvalOutcome::Value(ScriptValue::Object(Vec::new())),
        1,
        5000,
        Vec::new(),
    )
    .unwrap();
    assert_eq!(result.value, JsonValue::Object(Vec::new()));
    assert!(result.console_output.is_empty());
}

#[test]
fn settle_carries_the_console_only_on_success() {
    let transcript = vec!["[log] kept".to_string()];
    let ok = settle(
        EvalOutcome::Value(ScriptValue::Int(4)),
        1,
        5000,
        transcript.clone(),
    )
    .unwrap();
    assert_eq!(ok.value, JsonValue::Int(4));
    assert_eq!(ok.console_output, transcript);
}

#[test]
fn settle_reports_serialization_failures() {
    let result = settle(
        EvalOutcome::Value(ScriptValue::Float {
            bits: f64::INFINITY.to_bits(),
            text: "inf".to_string(),
        }),
        1,
        5000,
        Vec::new(),
    );
    let msg = match result {
        Err(e @ ExecError::Serialization(_)) => e.message(),
        _ => panic!("expected a serialization failure"),
    };
    assert_eq!(msg, "Invalid float value");
}

#[test]
fn error_parts_join_message_and_stack() {
    assert_eq!(format_error_parts("boom", ""), "boom");
    assert_eq!(format_error_parts("boom", "at x"), "boom\nat x");
}

#[test]
fn resource_init_reports_the_evaluator_description() {
    let err = ExecError::ResourceInit("allocation refused".to_string());
    assert_eq!(err.message(), "allocation refused");
}

#[test]
fn wrapping_embeds_the_code_between_the_fixed_frames() {
    assert_eq!(
        wrap_code("return 2 + 2"),
        "(async function main(input) {\n    return 2 + 2\n})(globalThis.__userInput)"
    );
}

#[test]
fn input_binding_seeds_json_or_absence() {
    let input = JsonValue::Object(vec![("n".to_string(), JsonValue::Int(1))]);
    assert_eq!(
        input_binding(Some(&input)),
        "globalThis.__userInput = {\"n\":1};"
    );
    assert_eq!(input_binding(None), "globalThis.__userInput = undefined;");
}

#[test]
fn test_user_return_skip_reason() {
    let value = JsonValue::Object(vec![
        (
            "skip_reason".to_string(),
            JsonValue::Str("user_cancelled".to_string()),
        ),
        (
            "additional_data".to_string(),
            JsonValue::Str("some info".to_string()),
        ),
    ]);
    assert_eq!(
        extract_reason(&value, "skip_reason"),
        Some("user_cancelled".to_string())
    );
    assert_eq!(
        extract_reason(&value, "additional_data"),
        Some("some info".to_string())
    );
    let response = build_success_response(
        js_sandbox::exec::ExecutionResult {
            value,
            console_output: Vec::new(),
        },
        7,
    );
    assert!(response.success);
    assert_eq!(response.skip_reason, Some("user_cancelled".to_string()));
    assert_eq!(response.error_reason, None);
    assert_eq!(response.execution_time_ms, 7);
}

#[test]
fn test_user_return_error_reason() {
    let value = JsonValue::Object(vec![
        (
            "error_reason".to_string(),
            JsonValue::Str("validation_failed".to_string()),
        ),
        (
            "details".to_string(),
            JsonValue::Str("Missing required field".to_string()),
        ),
    ]);
    let response = build_success_response(
        js_sandbox::exec::ExecutionResult {
            value,
            console_output: Vec::new(),
        },
        1,
    );
    assert_eq!(response.error_reason, Some("validation_failed".to_string()));
    assert_eq!(response.skip_reason, None);
}

#[test]
fn test_user_return_both_reasons() {
    let value = JsonValue::Object(vec![
        (
            "skip_reason".to_string(),
            JsonValue::Str("user_skip".to_string()),
        ),
        (
            "error_reason".to_string(),
            JsonValue::Str("also_error".to_string()),
        ),
        ("data".to_string(), JsonValue::Int(42)),
    ]);
    let response = build_success_response(
        js_sandbox::exec::ExecutionResult {
            value,
            console_output: Vec::new(),
        },
        1,
    );
    assert_eq!(response.skip_reason, Some("user_skip".to_string()));
    assert_eq!(response.error_reason, Some("also_error".to_string()));
}

#[test]
fn non_string_reasons_are_ignored() {
    let value = JsonValue::Object(vec![("skip_reason".to_string(), JsonValue::Int(3))]);
    assert_eq!(extract_reason(&value, "skip_reason"), None);
    assert_eq!(extract_reason(&JsonValue::Null, "skip_reason"), None);
}

#[test]
fn failure_response_doubles_the_message_into_error_reason() {
    let response = build_failure_response("Execution timeout exceeded".to_string(), 120);
    assert!(!response.success);
    assert_eq!(response.result, None);
    assert_eq!(
        response.error,
        Some("Execution timeout exceeded".to_string())
    );
    assert_eq!(
        response.error_reason,
        Some("Execution timeout exceeded".to_string())
    );
    assert_eq!(response.skip_reason, None);
    assert!(response.console_output.is_empty());
    assert_eq!(response.execution_time_ms, 120);
}

#[test]
fn validation_response_leaves_error_reason_empty() {
    // A request rejected before anything ran reports its message in
    // `error` alone: `error_reason` belongs to failures of an execution
    // itself, and no time was spent.
    let response = build_validation_response("Code cannot be empty".to_string());
    assert!(!response.success);
    assert_eq!(response.result, None);
    assert_eq!(response.error, Some("Code cannot be empty".to_string()));
    assert_eq!(response.error_reason, None);
    assert_eq!(response.skip_reason, None);
    assert_eq!(response.execution_time_ms, 0);
    assert!(response.console_output.is_empty());
}

#[test]
fn code_screening_matches_the_transport_rules() {
    assert_eq!(validate_code(""), Err(ValidationError::EmptyCode));
    assert_eq!(
        ValidationError::EmptyCode.message(),
        "Code cannot be empty"
    );
    let big = "x".repeat(102401);
    assert_eq!(validate_code(&big), Err(ValidationError::CodeTooLarge));
    assert_eq!(
        ValidationError::CodeTooLarge.message(),
        "Code size exceeds maximum of 102400 bytes"
    );
    let fitting = "x".repeat(102400);
    assert_eq!(validate_code(&fitting), Ok(()));
    assert_eq!(validate_code("return 1"), Ok(()));
}

#[test]
fn limits_clamp_to_their_caps() {
    assert_eq!(default_timeout(), 5000);
    assert_eq!(default_memory_limit(), 10 * 1024 * 1024);
    assert_eq!(default_stack_limit(), 1024 * 1024);
    assert_eq!(clamp_timeout(3000), 3000);
    assert_eq!(clamp_timeout(25000), 25000);
    assert_eq!(clamp_timeout(30000), 25000);
    assert_eq!(clamp_memory(1024), 1024);
    assert_eq!(clamp_memory(60 * 1024 * 1024), 50 * 1024 * 1024);
}

#[test]
fn sanitize_plan_removes_then_freezes_then_installs() {
    let plan = sanitize_plan();
    let names: Vec<String> = plan
        .iter()
        .map(|step| match step {
            SanitizeStep::RemoveGlobal(g) => format!("remove {}", g),
            SanitizeStep::FreezePrototype(p) => format!("freeze {}", p),
            SanitizeStep::InstallConsole => "install console".to_string(),
            SanitizeStep::InstallFetch => "install fetch".to_string(),
        })
        .collect();
    assert_eq!(
        names,
        vec![
            "remove eval",
            "remove Function",
            "remove setTimeout",
            "remove setInterval",
            "freeze Object.prototype",
            "freeze Array.prototype",
            "install console",
            "install fetch",
        ]
    );
}

#[test]
fn text_helpers_are_character_exact() {
    assert!(str_eq("abc", "abc"));
    assert!(!str_eq("abc", "abd"));
    assert!(!str_eq("abc", "ab"));
    assert!(str_starts_with("192.168.1.1", "192.168."));
    assert!(!str_starts_with("192.68.1.1", "192.168."));
    assert!(str_ends_with("api.example.com", ".example.com"));
    assert!(!str_ends_with("com", ".example.com"));
    assert_eq!(ascii_upper("get"), "GET");
    assert_eq!(ascii_upper("dElEtE"), "DELETE");
    assert_eq!(ascii_upper("x-1!"), "X-1!");
    assert_eq!(u64_to_string(0), "0");
    assert_eq!(u64_to_string(90210), "90210");
    assert_eq!(i64_to_string(-42), "-42");
    assert_eq!(i64_to_string(i64::MIN), "-9223372036854775808");
    assert_eq!(i64_to_string(i64::MAX), "9223372036854775807");
}
