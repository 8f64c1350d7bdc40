use sandbox_runner::compiler::{compilers, javascript, lookup, python};
use sandbox_runner::driver::{after_reading_output, build_invocation, classify, reported_exit_code, ExecutionStatus, ProcessEvent};
use sandbox_runner::error::SandboxError;
use sandbox_runner::request::{SandboxRequest, SandboxTest, SandboxTestResult};
use sandbox_runner::sandbox::{Sandbox, SandboxState, WorkspaceState};
use sandbox_runner::scoring::verify;
use sandbox_runner::text::{join, lines_equal, split_lines};
use sandbox_runner::workspace::{plan_workspace, source_file_name, stdin_file_name, WorkspaceRegistry};

fn lines(v: &[&str]) -> Vec<String> {
    v.iter().map(|s| s.to_string()).collect()
}

fn python_request(timeout: u8, source: &[&str], test: Option<SandboxTest>) -> SandboxRequest {
    SandboxRequest {
        id: "1234".to_string(),
        timeout,
        path: "./temp/random/python_test/".to_string(),
        source_code: lines(source),
        compiler: python(),
        test,
    }
}

fn run_to_end(request: SandboxRequest, event: ProcessEvent, stdout: &str, stderr: &str) -> (Sandbox, sandbox_runner::sandbox::ExecutionReport) {
    let mut registry = WorkspaceRegistry::new();
    let mut sandbox = Sandbox::new(request);
    sandbox.prepare(&mut registry).unwrap();
    sandbox.run().unwrap();
    let report = sandbox.finish(&mut registry, event, stdout, stderr).unwrap();
    assert!(!registry.holds(&sandbox.request().path));
    (sandbox, report)
}

#[test]
fn scenario_hello_succeeds() {
    let request = python_request(20, &["print('hello')"], None);
    let (sandbox, report) = run_to_end(
        request,
        ProcessEvent::Exited { exit_code: 0, elapsed_millis: 120 },
        "hello\n",
        "",
    );
    assert_eq!(report.status, ExecutionStatus::Succeeded);
    assert_eq!(report.stdout, lines(&["hello"]));
    assert_eq!(report.exit_code, Some(0));
    assert_eq!(report.test_result, None);
    assert!(report.stderr.is_empty());
    assert_eq!(report.workspace_to_remove, Some("./temp/random/python_test/".to_string()));
    assert_eq!(sandbox.state(), SandboxState::Completed);
    assert_eq!(sandbox.workspace(), WorkspaceState::Released);
}

#[test]
fn scenario_slow_program_times_out() {
    let request = python_request(0, &["import time", "time.sleep(10)", "print('hello')"], None);
    let (sandbox, report) = run_to_end(request, ProcessEvent::DeadlineElapsed, "", "");
    assert_eq!(report.status, ExecutionStatus::TimedOut);
    assert_eq!(report.exit_code, None);
    assert!(report.stdout.is_empty());
    assert_eq!(sandbox.state(), SandboxState::TimedOut);
}

#[test]
fn overrun_with_correct_output_still_times_out() {
    let test = SandboxTest::new("t".to_string(), None, Some(lines(&["hello"])));
    let request = python_request(1, &["print('hello')"], Some(test));
    let (_, report) = run_to_end(
        request,
        ProcessEvent::Exited { exit_code: 0, elapsed_millis: 1001 },
        "hello\n",
        "",
    );
    assert_eq!(report.status, ExecutionStatus::TimedOut);
    assert_eq!(report.test_result, Some(SandboxTestResult::Failed));
    assert!(report.stdout.is_empty());
}

#[test]
fn exit_at_the_limit_is_in_time() {
    assert_eq!(classify(ProcessEvent::Exited { exit_code: 0, elapsed_millis: 1000 }, 1), ExecutionStatus::Succeeded);
    assert_eq!(classify(ProcessEvent::Exited { exit_code: 0, elapsed_millis: 1001 }, 1), ExecutionStatus::TimedOut);
    assert_eq!(classify(ProcessEvent::Exited { exit_code: 0, elapsed_millis: 1 }, 0), ExecutionStatus::TimedOut);
    assert_eq!(classify(ProcessEvent::Exited { exit_code: 0, elapsed_millis: 255000 }, 255), ExecutionStatus::Succeeded);
}

#[test]
fn scenario_division_by_zero_is_runtime_error() {
    let request = python_request(20, &["print(1 / 0)"], None);
    let (sandbox, report) = run_to_end(
        request,
        ProcessEvent::Exited { exit_code: 1, elapsed_millis: 80 },
        "",
        "Traceback (most recent call last):\nZeroDivisionError: division by zero\n",
    );
    assert_eq!(report.status, ExecutionStatus::RuntimeError);
    assert_eq!(report.exit_code, Some(1));
    assert_eq!(
        report.stderr,
        lines(&["Traceback (most recent call last):", "ZeroDivisionError: division by zero"])
    );
    assert_eq!(sandbox.state(), SandboxState::Completed);
}

#[test]
fn compile_failure_keeps_stderr() {
    let request = python_request(20, &["x ="], None);
    let (sandbox, report) = run_to_end(request, ProcessEvent::CompileFailed { exit_code: 2 }, "ignored", "SyntaxError");
    assert_eq!(report.status, ExecutionStatus::CompileError);
    assert_eq!(report.exit_code, Some(2));
    assert!(report.stdout.is_empty());
    assert_eq!(report.stderr, lines(&["SyntaxError"]));
    assert_eq!(sandbox.state(), SandboxState::Failed);
}

#[test]
fn io_failure_is_reported() {
    let request = python_request(20, &["print('hello')"], None);
    let (sandbox, report) = run_to_end(request, ProcessEvent::IoFailure, "hello\n", "");
    assert_eq!(report.status, ExecutionStatus::IOError);
    assert!(report.stdout.is_empty());
    assert_eq!(sandbox.state(), SandboxState::Failed);
}

#[test]
fn scenario_test_passes_and_fails() {
    let pass = SandboxTest::new("t1".to_string(), None, Some(lines(&["hello"])));
    let (sandbox, report) = run_to_end(
        python_request(20, &["print('hello')"], Some(pass)),
        ProcessEvent::Exited { exit_code: 0, elapsed_millis: 10 },
        "hello\n",
        "",
    );
    assert_eq!(report.test_result, Some(SandboxTestResult::Passed));
    assert_eq!(sandbox.test_result(), Some(SandboxTestResult::Passed));

    let fail = SandboxTest::new("t2".to_string(), None, Some(lines(&["world"])));
    let (_, report) = run_to_end(
        python_request(20, &["print('hello')"], Some(fail)),
        ProcessEvent::Exited { exit_code: 0, elapsed_millis: 10 },
        "hello\n",
        "",
    );
    assert_eq!(report.test_result, Some(SandboxTestResult::Failed));
}

#[test]
fn scenario_unknown_language_is_rejected() {
    let registry = WorkspaceRegistry::new();
    let r = SandboxRequest::for_language(
        "1".to_string(),
        20,
        "./temp/cobol/".to_string(),
        lines(&["DISPLAY 'hello'."]),
        "cobol",
        None,
    );
    assert_eq!(r.err(), Some(SandboxError::UnsupportedLanguage));
    assert!(!registry.holds(&"./temp/cobol/".to_string()));
    assert_eq!(lookup("Python").err(), Some(SandboxError::UnsupportedLanguage));
}

#[test]
fn known_languages_are_found() {
    let r = SandboxRequest::for_language("1".to_string(), 20, "./w/".to_string(), lines(&["1"]), "Javascript", None).unwrap();
    assert_eq!(r.compiler, javascript());
    assert_eq!(lookup("python").unwrap(), python());
    let all = compilers();
    assert_eq!(all.len(), 2);
    assert_ne!(all[0].standard_output_file, all[1].standard_output_file);
    assert_ne!(all[0].standard_error_file, all[1].standard_error_file);
    assert_eq!(all[1].compiler, "node");
}

#[test]
fn cleanup_twice_is_harmless() {
    let (mut sandbox, _) = run_to_end(
        python_request(20, &["print('hello')"], None),
        ProcessEvent::Exited { exit_code: 0, elapsed_millis: 10 },
        "hello\n",
        "",
    );
    let mut registry = WorkspaceRegistry::new();
    assert_eq!(sandbox.cleanup(&mut registry), Ok(None));
    assert_eq!(sandbox.cleanup(&mut registry), Ok(None));
    assert_eq!(sandbox.workspace(), WorkspaceState::Released);

    let mut fresh = Sandbox::new(python_request(20, &["print('hello')"], None));
    assert_eq!(fresh.cleanup(&mut registry), Ok(None));
    assert_eq!(fresh.cleanup(&mut registry), Ok(None));
    assert_eq!(fresh.state(), SandboxState::Created);

    let mut abandoned = Sandbox::new(python_request(20, &["print('hello')"], None));
    abandoned.prepare(&mut registry).unwrap();
    assert!(registry.holds(&"./temp/random/python_test/".to_string()));
    assert_eq!(abandoned.cleanup(&mut registry), Ok(Some("./temp/random/python_test/".to_string())));
    assert_eq!(abandoned.workspace(), WorkspaceState::Released);
    assert_eq!(abandoned.state(), SandboxState::Abandoned);
    assert!(!registry.holds(&"./temp/random/python_test/".to_string()));
    assert_eq!(abandoned.cleanup(&mut registry), Ok(None));
    assert_eq!(abandoned.workspace(), WorkspaceState::Released);
    assert_eq!(abandoned.run().err(), Some(SandboxError::AlreadyTerminal));
    assert_eq!(abandoned.prepare(&mut registry).err(), Some(SandboxError::AlreadyTerminal));

    let mut staged_badly = Sandbox::new(python_request(20, &["print('hello')"], None));
    staged_badly.prepare(&mut registry).unwrap();
    staged_badly.staging_failed(&mut registry).unwrap();
    assert_eq!(staged_badly.cleanup(&mut registry), Ok(None));
    assert_eq!(staged_badly.cleanup(&mut registry), Ok(None));
}

#[test]
fn cleanup_waits_for_the_process() {
    let mut registry = WorkspaceRegistry::new();
    let mut sandbox = Sandbox::new(python_request(20, &["print('hello')"], None));
    sandbox.prepare(&mut registry).unwrap();
    sandbox.run().unwrap();
    assert_eq!(sandbox.cleanup(&mut registry), Err(SandboxError::StillRunning));
    assert_eq!(sandbox.state(), SandboxState::Running);
}

#[test]
fn lifecycle_misuse_is_rejected() {
    let mut registry = WorkspaceRegistry::new();
    let mut sandbox = Sandbox::new(python_request(20, &["print('hello')"], None));
    assert_eq!(sandbox.run().err(), Some(SandboxError::NotPrepared));
    assert_eq!(sandbox.finish(&mut registry, ProcessEvent::DeadlineElapsed, "", "").err(), Some(SandboxError::NotRunning));
    assert!(sandbox.prepare(&mut registry).is_ok());
    assert_eq!(sandbox.prepare(&mut registry).err(), Some(SandboxError::AlreadyPrepared));
    assert!(sandbox.run().is_ok());
    assert_eq!(sandbox.run().err(), Some(SandboxError::AlreadyRunning));
    assert_eq!(sandbox.prepare(&mut registry).err(), Some(SandboxError::AlreadyPrepared));
    assert!(sandbox.finish(&mut registry, ProcessEvent::DeadlineElapsed, "", "").is_ok());
    assert_eq!(sandbox.finish(&mut registry, ProcessEvent::DeadlineElapsed, "", "").err(), Some(SandboxError::AlreadyTerminal));
    assert_eq!(sandbox.prepare(&mut registry).err(), Some(SandboxError::AlreadyTerminal));
    assert_eq!(sandbox.run().err(), Some(SandboxError::AlreadyTerminal));
    assert_eq!(sandbox.staging_failed(&mut registry).err(), Some(SandboxError::AlreadyTerminal));
}

#[test]
fn staging_failure_ends_the_sandbox() {
    let mut registry = WorkspaceRegistry::new();
    let test = SandboxTest::new("t".to_string(), None, Some(lines(&["hello"])));
    let mut sandbox = Sandbox::new(python_request(20, &["print('hello')"], Some(test)));
    assert_eq!(sandbox.test_result(), Some(SandboxTestResult::NotRan));
    assert_eq!(sandbox.staging_failed(&mut registry).err(), Some(SandboxError::NotPrepared));
    sandbox.prepare(&mut registry).unwrap();
    let report = sandbox.staging_failed(&mut registry).unwrap();
    assert_eq!(report.status, ExecutionStatus::IOError);
    assert_eq!(report.test_result, Some(SandboxTestResult::Failed));
    assert_eq!(report.workspace_to_remove, Some("./temp/random/python_test/".to_string()));
    assert_eq!(sandbox.state(), SandboxState::StagingFailed);
    assert_eq!(sandbox.test_result(), Some(SandboxTestResult::Failed));
    assert_eq!(sandbox.run().err(), Some(SandboxError::NotPrepared));
    assert_eq!(sandbox.prepare(&mut registry).err(), Some(SandboxError::AlreadyPrepared));
    assert_eq!(sandbox.staging_failed(&mut registry).err(), Some(SandboxError::AlreadyTerminal));
    assert!(!registry.holds(&"./temp/random/python_test/".to_string()));
    assert_eq!(sandbox.cleanup(&mut registry), Ok(None));
}

#[test]
fn verify_compares_line_by_line() {
    let t = SandboxTest::new("t".to_string(), None, Some(lines(&["a", "b"])));
    assert_eq!(verify(&t, &lines(&["a", "b"])), SandboxTestResult::Passed);
    assert_eq!(verify(&t, &lines(&["a"])), SandboxTestResult::Failed);
    assert_eq!(verify(&t, &lines(&["a", "b", ""])), SandboxTestResult::Failed);
    assert_eq!(verify(&t, &lines(&["a", "b "])), SandboxTestResult::Failed);
    assert_eq!(verify(&t, &lines(&["b", "a"])), SandboxTestResult::Failed);
    let none = SandboxTest::new("n".to_string(), None, None);
    assert_eq!(verify(&none, &lines(&["anything"])), SandboxTestResult::Passed);
    assert_eq!(none.result, SandboxTestResult::NotRan);
    assert!(lines_equal(&lines(&[]), &lines(&[])));
}

#[test]
fn split_and_join_lines() {
    assert_eq!(split_lines(""), lines(&[]));
    assert_eq!(split_lines("\n"), lines(&[""]));
    assert_eq!(split_lines("a"), lines(&["a"]));
    assert_eq!(split_lines("a\nb\n"), lines(&["a", "b"]));
    assert_eq!(split_lines("a\n\nb"), lines(&["a", "", "b"]));
    assert_eq!(split_lines("a\nb\n\n"), lines(&["a", "b", ""]));
    assert_eq!(split_lines("héllo\nwörld"), lines(&["héllo", "wörld"]));
    assert_eq!(join(&lines(&[])), "");
    assert_eq!(join(&lines(&["x"])), "x");
    assert_eq!(join(&lines(&["x", "", "y"])), "x\n\ny");
}

#[test]
fn workspace_plan_for_request() {
    let test = SandboxTest::new("t".to_string(), Some(lines(&["3", "4"])), None);
    let request = python_request(20, &["a = int(input())", "print(a)"], Some(test));
    let plan = plan_workspace(&request);
    assert_eq!(plan.directory, "./temp/random/python_test/");
    assert_eq!(plan.source_file, "python.source");
    assert_eq!(plan.source_contents, "a = int(input())\nprint(a)");
    assert_eq!(plan.stdin_file, Some("python.stdin".to_string()));
    assert_eq!(plan.stdin_contents, Some("3\n4".to_string()));
    assert_eq!(plan.stdout_file, "python.out");
    assert_eq!(plan.stderr_file, "python.error.out");
    assert_eq!(plan.stdout_contents, "");
    assert_eq!(plan.stderr_contents, "");
    assert_eq!(plan.launcher_file, "script.sh");
    assert_eq!(plan.launcher_source, "/dockerFiles/source.sh");

    let bare = plan_workspace(&python_request(20, &["print(1)"], None));
    assert_eq!(bare.stdin_file, None);
    assert_eq!(bare.stdin_contents, None);
    assert_eq!(source_file_name(&"Javascript".to_string()), "Javascript.source");
    assert_eq!(stdin_file_name(&"Javascript".to_string()), "Javascript.stdin");
}

#[test]
fn invocation_appends_additional_arguments() {
    let mut compiler = python();
    compiler.additional_arguments = Some("-u".to_string());
    compiler.interpreter = false;
    let mut request = python_request(7, &["print(1)"], None);
    request.compiler = compiler;
    let inv = build_invocation(&request);
    assert_eq!(inv.image, "python_virtual_machine");
    assert_eq!(inv.workspace, "./temp/random/python_test/");
    assert_eq!(inv.arguments, lines(&["python3", "python.source", "-u"]));
    assert!(inv.compile_first);
    assert_eq!(inv.timeout_seconds, 7);

    let plain = build_invocation(&python_request(7, &["print(1)"], None));
    assert_eq!(plain.arguments, lines(&["python3", "python.source"]));
    assert!(!plain.compile_first);
}

#[test]
fn exit_codes_reported() {
    assert_eq!(reported_exit_code(ProcessEvent::Exited { exit_code: 3, elapsed_millis: 5 }, 1), Some(3));
    assert_eq!(reported_exit_code(ProcessEvent::Exited { exit_code: 3, elapsed_millis: 5000 }, 1), None);
    assert_eq!(reported_exit_code(ProcessEvent::CompileFailed { exit_code: 4 }, 1), Some(4));
    assert_eq!(reported_exit_code(ProcessEvent::DeadlineElapsed, 1), None);
}

#[test]
fn workspace_paths_are_exclusive() {
    let mut registry = WorkspaceRegistry::new();
    let p = "./temp/a/".to_string();
    assert_eq!(registry.acquire(p.clone()), Ok(()));
    assert_eq!(registry.acquire(p.clone()), Err(SandboxError::PathConflict));
    assert_eq!(registry.acquire("./temp/b/".to_string()), Ok(()));
    assert!(registry.holds(&p));
    registry.release(&p);
    assert!(!registry.holds(&p));
    assert!(registry.holds(&"./temp/b/".to_string()));
    registry.release(&p);
    assert_eq!(registry.acquire(p.clone()), Ok(()));
}

#[test]
fn matching_output_passes_despite_nonzero_exit() {
    let test = SandboxTest::new("t".to_string(), None, Some(lines(&["hello"])));
    let (sandbox, report) = run_to_end(
        python_request(20, &["print('hello')", "exit(1)"], Some(test)),
        ProcessEvent::Exited { exit_code: 1, elapsed_millis: 10 },
        "hello\n",
        "",
    );
    assert_eq!(report.status, ExecutionStatus::RuntimeError);
    assert_eq!(report.test_result, Some(SandboxTestResult::Passed));
    assert_eq!(sandbox.test_result(), Some(SandboxTestResult::Passed));
}

#[test]
fn prepare_refuses_a_path_in_use() {
    let mut registry = WorkspaceRegistry::new();
    let mut first = Sandbox::new(python_request(20, &["print(1)"], None));
    let mut second = Sandbox::new(python_request(20, &["print(2)"], None));
    assert!(first.prepare(&mut registry).is_ok());
    assert_eq!(second.prepare(&mut registry).err(), Some(SandboxError::PathConflict));
    assert_eq!(second.state(), SandboxState::Created);
    assert_eq!(second.workspace(), WorkspaceState::Absent);
    assert!(registry.holds(&"./temp/random/python_test/".to_string()));
    first.run().unwrap();
    first.finish(&mut registry, ProcessEvent::Exited { exit_code: 0, elapsed_millis: 1 }, "1\n", "").unwrap();
    assert!(second.prepare(&mut registry).is_ok());
}

#[test]
fn prepare_refuses_an_unregistered_runtime() {
    let mut registry = WorkspaceRegistry::new();
    let mut compiler = python();
    compiler.language = "cobol".to_string();
    let mut request = python_request(20, &["DISPLAY 'hello'."], None);
    request.compiler = compiler;
    let mut sandbox = Sandbox::new(request);
    assert_eq!(sandbox.prepare(&mut registry).err(), Some(SandboxError::UnsupportedLanguage));
    assert_eq!(sandbox.workspace(), WorkspaceState::Absent);
    assert_eq!(sandbox.state(), SandboxState::Created);
    assert!(!registry.holds(&"./temp/random/python_test/".to_string()));

    let mut empty_image = python();
    empty_image.virtual_machine_name = String::new();
    let mut request = python_request(20, &["print(1)"], None);
    request.compiler = empty_image;
    let mut sandbox = Sandbox::new(request);
    assert_eq!(sandbox.prepare(&mut registry).err(), Some(SandboxError::UnsupportedLanguage));
}

#[test]
fn new_sandbox_starts_with_test_not_run() {
    let mut test = SandboxTest::new("t".to_string(), None, Some(lines(&["hello"])));
    test.result = SandboxTestResult::Passed;
    let sandbox = Sandbox::new(python_request(20, &["print('hello')"], Some(test)));
    assert_eq!(sandbox.test_result(), Some(SandboxTestResult::NotRan));
    assert_eq!(sandbox.request().test.as_ref().map(|t| t.id.clone()), Some("t".to_string()));
}

#[test]
fn unreadable_output_is_an_io_failure() {
    let exited = ProcessEvent::Exited { exit_code: 0, elapsed_millis: 1 };
    assert_eq!(after_reading_output(exited, true), exited);
    assert_eq!(after_reading_output(exited, false), ProcessEvent::IoFailure);
    assert_eq!(after_reading_output(ProcessEvent::DeadlineElapsed, false), ProcessEvent::DeadlineElapsed);
    assert_eq!(after_reading_output(ProcessEvent::CompileFailed { exit_code: 2 }, false), ProcessEvent::IoFailure);
}
