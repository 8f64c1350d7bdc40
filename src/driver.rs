use vstd::prelude::*;
use crate::request::SandboxRequest;
use crate::workspace::{source_file_name, source_name};

verus! {

/// How the isolated environment is to be started for one request.
#[derive(Debug, Clone)]
pub struct Invocation {
    /// The image of the isolated runtime.
    pub image: String,
    /// The workspace directory mounted into the environment.
    pub workspace: String,
    /// The command line: the runtime's executable, the staged source file, then the
    /// descriptor's additional arguments, if any.
    pub arguments: Vec<String>,
    /// Whether a compile step runs before execution.
    pub compile_first: bool,
    /// The hard limit, shared by the host watchdog and the runtime's own limit.
    pub timeout_seconds: u8,
}

/// The command line that a request calls for.
pub open spec fn command_line(q: SandboxRequest) -> Seq<Seq<char>> {
    let fixed = seq![q.compiler.compiler@, source_name(q.compiler.language@)];
    match q.compiler.additional_arguments {
        Some(extra) => fixed.push(extra@),
        None => fixed,
    }
}

/// The invocation that a request calls for.
pub open spec fn is_invocation_for(r: Invocation, q: SandboxRequest) -> bool {
    &&& r.image@ == q.compiler.virtual_machine_name@
    &&& r.workspace@ == q.path@
    &&& r.arguments@.map_values(|a: String| a@) == command_line(q)
    &&& r.compile_first == !q.compiler.interpreter
    &&& r.timeout_seconds == q.timeout
}

/// Builds the invocation for a request.
pub fn build_invocation(request: &SandboxRequest) -> (r: Invocation)
    ensures
        is_invocation_for(r, *request),
{
    let mut arguments: Vec<String> = Vec::new();
    arguments.push(request.compiler.compiler.clone());
    arguments.push(source_file_name(&request.compiler.language));
    match &request.compiler.additional_arguments {
        Some(extra) => arguments.push(extra.clone()),
        None => {},
    }
    let r = Invocation {
        image: request.compiler.virtual_machine_name.clone(),
        workspace: request.path.clone(),
        arguments,
        compile_first: !request.compiler.interpreter,
        timeout_seconds: request.timeout,
    };
    assert(r.arguments@.map_values(|a: String| a@) =~= command_line(*request));
    r
}

/// What the host observed of the isolated process.
#[derive(Debug, Clone, Copy, PartialEq, Eq, Structural)]
pub enum ProcessEvent {
    /// The program exited on its own after `elapsed_millis` of wall-clock time.
    Exited { exit_code: i32, elapsed_millis: u64 },
    /// The compile step exited with a non-zero code; the program never ran.
    CompileFailed { exit_code: i32 },
    /// The watchdog fired and the environment was killed.
    DeadlineElapsed,
    /// Launching the environment or reading its output files failed.
    IoFailure,
}

/// The one outcome reported for a request.
#[derive(Debug, Clone, Copy, PartialEq, Eq, Structural)]
pub enum ExecutionStatus {
    Succeeded,
    RuntimeError,
    CompileError,
    TimedOut,
    IOError,
}

/// Whether a run of `elapsed_millis` went past the limit of `timeout` seconds.
pub open spec fn exceeds(elapsed_millis: u64, timeout: u8) -> bool {
    elapsed_millis > timeout as int * 1000
}

/// The status that an observed event yields under a limit of `timeout` seconds. A
/// process that outlived the limit has timed out, however it ended.
pub open spec fn status_of(event: ProcessEvent, timeout: u8) -> ExecutionStatus {
    match event {
        ProcessEvent::Exited { exit_code, elapsed_millis } => {
            if exceeds(elapsed_millis, timeout) {
                ExecutionStatus::TimedOut
            } else if exit_code == 0 {
                ExecutionStatus::Succeeded
            } else {
                ExecutionStatus::RuntimeError
            }
        },
        ProcessEvent::CompileFailed { .. } => ExecutionStatus::CompileError,
        ProcessEvent::DeadlineElapsed => ExecutionStatus::TimedOut,
        ProcessEvent::IoFailure => ExecutionStatus::IOError,
    }
}

/// The exit code reported to the caller: the program's or the compile step's, when
/// it ended on its own within the limit.
pub open spec fn exit_code_of(event: ProcessEvent, timeout: u8) -> Option<i32> {
    match event {
        ProcessEvent::Exited { exit_code, elapsed_millis } => {
            if exceeds(elapsed_millis, timeout) {
                None
            } else {
                Some(exit_code)
            }
        },
        ProcessEvent::CompileFailed { exit_code } => Some(exit_code),
        _ => None,
    }
}

/// Decides the status of a finished run.
pub fn classify(event: ProcessEvent, timeout: u8) -> (r: ExecutionStatus)
    ensures
        r == status_of(event, timeout),
{
    match event {
        ProcessEvent::Exited { exit_code, elapsed_millis } => {
            let limit: u64 = timeout as u64 * 1000;
            if elapsed_millis > limit {
                ExecutionStatus::TimedOut
            } else if exit_code == 0 {
                ExecutionStatus::Succeeded
            } else {
                ExecutionStatus::RuntimeError
            }
        },
        ProcessEvent::CompileFailed { .. } => ExecutionStatus::CompileError,
        ProcessEvent::DeadlineElapsed => ExecutionStatus::TimedOut,
        ProcessEvent::IoFailure => ExecutionStatus::IOError,
    }
}

/// The exit code to report for a finished run.
pub fn reported_exit_code(event: ProcessEvent, timeout: u8) -> (r: Option<i32>)
    ensures
        r == exit_code_of(event, timeout),
{
    match event {
        ProcessEvent::Exited { exit_code, elapsed_millis } => {
            let limit: u64 = timeout as u64 * 1000;
            if elapsed_millis > limit {
                None
            } else {
                Some(exit_code)
            }
        },
        ProcessEvent::CompileFailed { exit_code } => Some(exit_code),
        _ => None,
    }
}

/// The event to report once the output files were read back, or failed to be: a
/// deadline stands as it is, anything else without its output is an I/O failure.
pub fn after_reading_output(event: ProcessEvent, outputs_read: bool) -> (r: ProcessEvent)
    ensures
        r == if event is DeadlineElapsed || outputs_read {
            event
        } else {
            ProcessEvent::IoFailure
        },
{
    match event {
        ProcessEvent::DeadlineElapsed => event,
        _ => if outputs_read {
            event
        } else {
            ProcessEvent::IoFailure
        },
    }
}

/// A process that outlives its limit is reported as timed out and never as a
/// success, whatever its exit code and output.
pub proof fn lemma_overrun_times_out(exit_code: i32, elapsed_millis: u64, timeout: u8)
    requires
        exceeds(elapsed_millis, timeout),
    ensures
        status_of(ProcessEvent::Exited { exit_code, elapsed_millis }, timeout)
            == ExecutionStatus::TimedOut,
        status_of(ProcessEvent::DeadlineElapsed, timeout) == ExecutionStatus::TimedOut,
{
}

} // verus!
