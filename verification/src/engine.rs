//! Classification logic of the execution engine.
//!
//! The engine compiles a submission in an isolated workspace and runs
//! it once. The filesystem work and the child processes live outside
//! the library; they report what happened as an [`EngineEvent`], and
//! [`engine_step`] decides, exactly, what the invocation's outcome is:
//! which status it gets, what its message says, and what the
//! accumulated logs become.

use vstd::prelude::*;
use vstd::string::*;
use crate::json::to_json_text;
use crate::text::trim;
use crate::text::trim_spec;

verus! {

/// Terminal classification of one invocation.
#[derive(Clone, Copy, Debug, PartialEq, Eq, Structural)]
pub enum Status {
    Success,
    Error,
    Timeout,
}

impl Status {
    /// The status's wire label.
    pub open spec fn label(self) -> Seq<char> {
        match self {
            Status::Success => "SUCCESS"@,
            Status::Error => "ERROR"@,
            Status::Timeout => "TIMEOUT"@,
        }
    }

    /// The label published in the result envelope.
    pub fn as_str(&self) -> (r: &'static str)
        ensures
            r@ == self.label(),
    {
        match self {
            Status::Success => "SUCCESS",
            Status::Error => "ERROR",
            Status::Timeout => "TIMEOUT",
        }
    }

    pub fn is_success(&self) -> (b: bool)
        ensures
            b == (*self is Success),
    {
        match self {
            Status::Success => true,
            _ => false,
        }
    }
}

/// What the engine reports for one invocation: the status, the
/// invocation's payload text — the trimmed standard output on success,
/// the failure message otherwise — and the accumulated diagnostic logs.
pub struct EngineOutcome {
    pub status: Status,
    pub payload: String,
    pub logs: String,
}

/// The pipeline steps outside the library that can fail before the
/// program's own run is judged.
#[derive(Clone, Copy, Debug)]
pub enum SetupStep {
    /// Creating the per-invocation workspace directory.
    CreateWorkDir,
    /// Creating the source directory inside the workspace.
    CreateSrcDir,
    /// Writing the generated project manifest.
    WriteManifest,
    /// Writing the generated entry-point source.
    WriteEntryPoint,
    /// Launching the compiler.
    LaunchCompiler,
    /// Serializing the invocation's input for the program's stdin.
    EncodeInput,
    /// Launching the compiled program.
    LaunchProgram,
}

/// The message prefix reported when `step` fails.
pub open spec fn failure_prefix(step: SetupStep) -> Seq<char> {
    match step {
        SetupStep::CreateWorkDir => "Failed to create work directory: "@,
        SetupStep::CreateSrcDir => "Failed to create src directory: "@,
        SetupStep::WriteManifest => "Failed to write Cargo.toml: "@,
        SetupStep::WriteEntryPoint => "Failed to write main.rs: "@,
        SetupStep::LaunchCompiler => "Failed to run cargo: "@,
        SetupStep::EncodeInput => "Failed to serialize input: "@,
        SetupStep::LaunchProgram => "Failed to execute binary: "@,
    }
}

fn failure_prefix_str(step: SetupStep) -> (r: &'static str)
    ensures
        r@ == failure_prefix(step),
{
    match step {
        SetupStep::CreateWorkDir => "Failed to create work directory: ",
        SetupStep::CreateSrcDir => "Failed to create src directory: ",
        SetupStep::WriteManifest => "Failed to write Cargo.toml: ",
        SetupStep::WriteEntryPoint => "Failed to write main.rs: ",
        SetupStep::LaunchCompiler => "Failed to run cargo: ",
        SetupStep::EncodeInput => "Failed to serialize input: ",
        SetupStep::LaunchProgram => "Failed to execute binary: ",
    }
}

/// What happened at one pipeline step, as the surrounding process
/// management observed it.
pub enum EngineEvent {
    /// A setup step failed with an error described by `error`.
    StepFailed { step: SetupStep, error: String },
    /// The compiler ran past its deadline and was killed.
    CompileTimedOut,
    /// The compiler finished; `success` is its exit status, `stderr`
    /// its diagnostics.
    CompileFinished { success: bool, stderr: String },
    /// The program ran past its deadline and was killed.
    ExecTimedOut,
    /// The program finished; `exit_ok` is its exit status.
    RunFinished { exit_ok: bool, stdout: String, stderr: String },
}

/// What the pipeline does next: stop with an outcome, or go on with
/// the logs accumulated so far.
pub enum EngineStep {
    Done(EngineOutcome),
    Continue(String),
}

/// The message of a failed compilation: the fixed prefix, then the
/// compiler's diagnostics.
pub open spec fn compile_error_message(stderr: Seq<char>) -> Seq<char> {
    "Compilation error:\n"@ + stderr
}

/// The line appended to the logs when compilation succeeds.
pub open spec fn compile_ok_line() -> Seq<char> {
    "Compilation successful\n"@
}

/// The message of a run that exited non-zero without writing to
/// standard error.
pub open spec fn nonzero_exit_message() -> Seq<char> {
    "Execution failed with non-zero exit code"@
}

/// The message of a compilation killed at its deadline.
pub open spec fn compile_timeout_message() -> Seq<char> {
    "Compilation timed out after 60 seconds"@
}

/// The message of a run killed at its deadline.
pub open spec fn exec_timeout_message() -> Seq<char> {
    "Execution timed out after 30 seconds"@
}

/// Classifies one pipeline event.
///
/// A failed setup step and a failed or timed-out compilation or run end
/// the invocation with the exact message the event calls for; only a
/// successful compilation lets the pipeline continue. Compiler
/// diagnostics are always appended to the logs, a run's standard error
/// only when it is non-empty.
pub fn engine_step(event: EngineEvent, logs: String) -> (r: EngineStep)
    ensures
        (event matches EngineEvent::StepFailed { step, error } ==> (r matches EngineStep::Done(o)
            && o.status is Error && o.payload@ == failure_prefix(step) + error@ && o.logs@
            == logs@)),
        (event is CompileTimedOut ==> (r matches EngineStep::Done(o) && o.status is Timeout
            && o.payload@ == compile_timeout_message() && o.logs@ == logs@)),
        (event matches EngineEvent::CompileFinished { success, stderr } ==> (if success {
            r matches EngineStep::Continue(l) && l@ == logs@ + stderr@ + compile_ok_line()
        } else {
            r matches EngineStep::Done(o) && o.status is Error && o.payload@
                == compile_error_message(stderr@) && o.logs@ == logs@ + stderr@
        })),
        (event is ExecTimedOut ==> (r matches EngineStep::Done(o) && o.status is Timeout
            && o.payload@ == exec_timeout_message() && o.logs@ == logs@)),
        (event matches EngineEvent::RunFinished { exit_ok, stdout, stderr } ==> (r matches
            EngineStep::Done(o) && o.logs@ == (if stderr@.len() > 0 {
            logs@ + stderr@
        } else {
            logs@
        }) && (exit_ok ==> o.status is Success && o.payload@ == trim_spec(stdout@)) && (!exit_ok
            && stderr@.len() > 0 ==> o.status is Error && o.payload@ == stderr@) && (!exit_ok
            && stderr@.len() == 0 ==> o.status is Error && o.payload@ == nonzero_exit_message()))),
{
    match event {
        EngineEvent::StepFailed { step, error } => {
            let payload = String::from_str(failure_prefix_str(step)).concat(error.as_str());
            EngineStep::Done(EngineOutcome { status: Status::Error, payload, logs })
        },
        EngineEvent::CompileTimedOut => {
            let payload = String::from_str("Compilation timed out after 60 seconds");
            EngineStep::Done(EngineOutcome { status: Status::Timeout, payload, logs })
        },
        EngineEvent::CompileFinished { success, stderr } => {
            let mut new_logs = logs;
            new_logs.append(stderr.as_str());
            if success {
                new_logs.append("Compilation successful\n");
                EngineStep::Continue(new_logs)
            } else {
                let payload = String::from_str("Compilation error:\n").concat(stderr.as_str());
                EngineStep::Done(
                    EngineOutcome { status: Status::Error, payload, logs: new_logs },
                )
            }
        },
        EngineEvent::ExecTimedOut => {
            let payload = String::from_str("Execution timed out after 30 seconds");
            EngineStep::Done(EngineOutcome { status: Status::Timeout, payload, logs })
        },
        EngineEvent::RunFinished { exit_ok, stdout, stderr } => {
            let stderr_empty = stderr.as_str().is_empty();
            let mut new_logs = logs;
            if !stderr_empty {
                new_logs.append(stderr.as_str());
            }
            if exit_ok {
                let payload = trim(stdout.as_str());
                EngineStep::Done(
                    EngineOutcome { status: Status::Success, payload, logs: new_logs },
                )
            } else {
                let payload = if stderr_empty {
                    String::from_str("Execution failed with non-zero exit code")
                } else {
                    stderr
                };
                EngineStep::Done(
                    EngineOutcome { status: Status::Error, payload, logs: new_logs },
                )
            }
        },
    }
}

/// What the input-serialization step produced: the single-line JSON
/// document handed to the program's standard input along with the logs
/// so far, or a terminal outcome when the input could not be
/// serialized.
pub enum InputPrep {
    Ready { stdin_doc: String, logs: String },
    Failed(EngineOutcome),
}

/// Serializes the invocation's input for the program's standard
/// input: the document handed on is exactly the input's JSON
/// encoding, and the logs are kept as they were. The failure arm is
/// kept against serde_json ever refusing a value; it reports an error
/// whose message starts with the input-serialization prefix.
pub fn prepare_input(input: &serde_json::Value, logs: String) -> (r: InputPrep)
    ensures
        r is Ready,
        (r matches InputPrep::Ready { stdin_doc, logs: l } ==> stdin_doc@ == crate::json::value_text(
            *input,
        ) && l@ == logs@),
        (r matches InputPrep::Failed(o) ==> (o.status is Error && o.logs@ == logs@
            && o.payload@.len() >= failure_prefix(SetupStep::EncodeInput).len() && o.payload@
            .subrange(0, failure_prefix(SetupStep::EncodeInput).len() as int) == failure_prefix(
            SetupStep::EncodeInput,
        ))),
{
    match to_json_text(input) {
        Ok(s) => InputPrep::Ready { stdin_doc: s, logs },
        Err(e) => {
            let payload = String::from_str(failure_prefix_str(SetupStep::EncodeInput)).concat(
                e.as_str(),
            );
            proof {
                assert(payload@.subrange(
                    0,
                    failure_prefix(SetupStep::EncodeInput).len() as int,
                ) =~= failure_prefix(SetupStep::EncodeInput));
            }
            InputPrep::Failed(EngineOutcome { status: Status::Error, payload, logs })
        },
    }
}

/// Law: a failed compilation's message starts with "Compilation error",
/// and the logs it leaves contain the compiler diagnostics verbatim.
pub proof fn lemma_compile_failure_reported(stderr: Seq<char>, logs: Seq<char>)
    ensures
        compile_error_message(stderr).len() >= "Compilation error"@.len(),
        compile_error_message(stderr).subrange(0, "Compilation error"@.len() as int)
            == "Compilation error"@,
        (logs + stderr).subrange(logs.len() as int, (logs.len() + stderr.len()) as int) == stderr,
{
    reveal_strlit("Compilation error");
    reveal_strlit("Compilation error:\n");
    assert(compile_error_message(stderr).subrange(0, "Compilation error"@.len() as int)
        =~= "Compilation error"@);
    assert((logs + stderr).subrange(logs.len() as int, (logs.len() + stderr.len()) as int)
        =~= stderr);
}

} // verus!
