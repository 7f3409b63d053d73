use rust_worker::codegen::get_cargo_toml;
use rust_worker::codegen::get_wrapper_code;
use rust_worker::engine::engine_step;
use rust_worker::engine::EngineEvent;
use rust_worker::engine::EngineStep;
use rust_worker::engine::SetupStep;
use rust_worker::engine::Status;
use rust_worker::text::i64_to_string;
use rust_worker::text::trim;
use rust_worker::text::u64_to_string;

#[test]
fn wrapper_code_embeds_user_code() {
    let user = "fn handler(v: Value) -> Value { v }";
    let expected = "use serde_json::{json, Value};\nuse std::io::{self, Read};\n\nfn handler(v: Value) -> Value { v }\n\nfn main() {\n    let mut input = String::new();\n    io::stdin().read_to_string(&mut input).expect(\"Failed to read stdin\");\n\n    let event: Value = serde_json::from_str(&input).expect(\"Failed to parse input JSON\");\n    let result = handler(event);\n\n    println!(\"{}\", result);\n}\n";
    assert_eq!(get_wrapper_code(user), expected);
}

#[test]
fn cargo_toml_declares_json_dependencies() {
    let expected = "[package]\nname = \"handler\"\nversion = \"0.1.0\"\nedition = \"2018\"\n\n[dependencies]\nserde_json = \"1.0\"\nserde = { version = \"1.0\", features = [\"derive\"] }\n";
    assert_eq!(get_cargo_toml(), expected);
}

#[test]
fn compile_failure_is_reported() {
    let diagnostics = "error[E0425]: cannot find function `handler` in this scope\n";
    let event = EngineEvent::CompileFinished {
        success: false,
        stderr: diagnostics.to_string(),
    };
    match engine_step(event, String::new()) {
        EngineStep::Done(o) => {
            assert_eq!(o.status, Status::Error);
            assert_eq!(o.status.as_str(), "ERROR");
            assert!(o.payload.starts_with("Compilation error"));
            assert_eq!(o.payload, format!("Compilation error:\n{}", diagnostics));
            assert!(o.logs.contains(diagnostics));
        }
        EngineStep::Continue(_) => panic!("a failed compilation must end the invocation"),
    }
}

#[test]
fn compile_success_continues_with_logs() {
    let event = EngineEvent::CompileFinished {
        success: true,
        stderr: "warning: unused variable\n".to_string(),
    };
    match engine_step(event, "earlier\n".to_string()) {
        EngineStep::Done(_) => panic!("a successful compilation must continue"),
        EngineStep::Continue(logs) => {
            assert_eq!(logs, "earlier\nwarning: unused variable\nCompilation successful\n");
        }
    }
}

#[test]
fn run_success_trims_output() {
    let event = EngineEvent::RunFinished {
        exit_ok: true,
        stdout: "{\"a\":1}\n".to_string(),
        stderr: String::new(),
    };
    match engine_step(event, "logs\n".to_string()) {
        EngineStep::Done(o) => {
            assert_eq!(o.status, Status::Success);
            assert_eq!(o.payload, "{\"a\":1}");
            assert_eq!(o.logs, "logs\n");
        }
        EngineStep::Continue(_) => panic!("a finished run must end the invocation"),
    }
}

#[test]
fn run_failure_reports_stderr() {
    let event = EngineEvent::RunFinished {
        exit_ok: false,
        stdout: String::new(),
        stderr: "thread 'main' panicked\n".to_string(),
    };
    match engine_step(event, String::new()) {
        EngineStep::Done(o) => {
            assert_eq!(o.status, Status::Error);
            assert_eq!(o.payload, "thread 'main' panicked\n");
            assert_eq!(o.logs, "thread 'main' panicked\n");
        }
        EngineStep::Continue(_) => panic!("a finished run must end the invocation"),
    }
}

#[test]
fn run_failure_without_stderr_gets_generic_message() {
    let event = EngineEvent::RunFinished {
        exit_ok: false,
        stdout: String::new(),
        stderr: String::new(),
    };
    match engine_step(event, "kept\n".to_string()) {
        EngineStep::Done(o) => {
            assert_eq!(o.status, Status::Error);
            assert_eq!(o.payload, "Execution failed with non-zero exit code");
            assert_eq!(o.logs, "kept\n");
        }
        EngineStep::Continue(_) => panic!("a finished run must end the invocation"),
    }
}

#[test]
fn execution_timeout_is_classified() {
    match engine_step(EngineEvent::ExecTimedOut, "logs\n".to_string()) {
        EngineStep::Done(o) => {
            assert_eq!(o.status, Status::Timeout);
            assert_eq!(o.status.as_str(), "TIMEOUT");
            assert_eq!(o.payload, "Execution timed out after 30 seconds");
            assert_eq!(o.logs, "logs\n");
        }
        EngineStep::Continue(_) => panic!("a timeout must end the invocation"),
    }
}

#[test]
fn compile_timeout_is_classified() {
    match engine_step(EngineEvent::CompileTimedOut, String::new()) {
        EngineStep::Done(o) => {
            assert_eq!(o.status, Status::Timeout);
            assert_eq!(o.payload, "Compilation timed out after 60 seconds");
        }
        EngineStep::Continue(_) => panic!("a timeout must end the invocation"),
    }
}

#[test]
fn setup_failures_carry_their_step_prefix() {
    let cases = [
        (SetupStep::CreateWorkDir, "Failed to create work directory: "),
        (SetupStep::CreateSrcDir, "Failed to create src directory: "),
        (SetupStep::WriteManifest, "Failed to write Cargo.toml: "),
        (SetupStep::WriteEntryPoint, "Failed to write main.rs: "),
        (SetupStep::LaunchCompiler, "Failed to run cargo: "),
        (SetupStep::EncodeInput, "Failed to serialize input: "),
        (SetupStep::LaunchProgram, "Failed to execute binary: "),
    ];
    for (step, prefix) in cases {
        let event = EngineEvent::StepFailed {
            step,
            error: "permission denied".to_string(),
        };
        match engine_step(event, String::new()) {
            EngineStep::Done(o) => {
                assert_eq!(o.status, Status::Error);
                assert_eq!(o.payload, format!("{}permission denied", prefix));
            }
            EngineStep::Continue(_) => panic!("a failed step must end the invocation"),
        }
    }
}

#[test]
fn trim_removes_surrounding_whitespace() {
    assert_eq!(trim("  {\"a\":1}\n"), "{\"a\":1}");
    assert_eq!(trim("no change"), "no change");
    assert_eq!(trim("\t\r\n "), "");
    assert_eq!(trim(""), "");
    assert_eq!(trim("\u{3000}wide\u{00A0}"), "wide");
    assert_eq!(trim(" inner  space "), "inner  space");
}

#[test]
fn decimal_formatting_is_exact() {
    assert_eq!(u64_to_string(0), "0");
    assert_eq!(u64_to_string(42), "42");
    assert_eq!(u64_to_string(18446744073709551615), "18446744073709551615");
    assert_eq!(i64_to_string(0), "0");
    assert_eq!(i64_to_string(-7), "-7");
    assert_eq!(i64_to_string(9223372036854775807), "9223372036854775807");
    assert_eq!(i64_to_string(-9223372036854775808), "-9223372036854775808");
}

#[test]
fn status_labels_match_the_wire_protocol() {
    assert_eq!(Status::Success.as_str(), "SUCCESS");
    assert_eq!(Status::Error.as_str(), "ERROR");
    assert_eq!(Status::Timeout.as_str(), "TIMEOUT");
}
