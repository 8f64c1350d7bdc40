use vstd::prelude::*;
use crate::driver::{
    build_invocation, classify, exit_code_of, is_invocation_for, reported_exit_code, status_of,
    ExecutionStatus, Invocation, ProcessEvent,
};
use crate::compiler::{is_registered, registered};
use crate::error::SandboxError;
use crate::request::{SandboxRequest, SandboxTestResult};
use crate::scoring::{meets_expectation, verify};
use crate::text::{split_lines, splits_into, views};
use crate::workspace::{is_plan_for, plan_workspace, WorkspacePlan, WorkspaceRegistry};

verus! {

/// Where a sandbox stands in its single pass from creation to an outcome.
#[derive(Debug, Clone, Copy, PartialEq, Eq, Structural)]
pub enum SandboxState {
    Created,
    Prepared,
    /// Staging the workspace failed: the sandbox reported `IOError` and never ran.
    StagingFailed,
    /// The workspace was cleaned up after `prepare`, before the process ran; the
    /// sandbox accepts no further lifecycle call.
    Abandoned,
    Running,
    Completed,
    Failed,
    TimedOut,
}

/// Whether the workspace directory has been staged, and whether it was handed back.
#[derive(Debug, Clone, Copy, PartialEq, Eq, Structural)]
pub enum WorkspaceState {
    Absent,
    Staged,
    Released,
}

/// The states reached when the process has ended.
pub open spec fn is_terminal(s: SandboxState) -> bool {
    s == SandboxState::Completed || s == SandboxState::Failed || s == SandboxState::TimedOut
}

/// The states in which the sandbox has reported its outcome.
pub open spec fn is_settled(s: SandboxState) -> bool {
    is_terminal(s) || s == SandboxState::StagingFailed
}

/// The lifecycle part of `prepare`: the state it leads to, or its lifecycle error.
pub open spec fn prepare_step(s: SandboxState) -> Result<SandboxState, SandboxError> {
    match s {
        SandboxState::Created => Ok(SandboxState::Prepared),
        SandboxState::Prepared | SandboxState::Running | SandboxState::StagingFailed => Err(
            SandboxError::AlreadyPrepared,
        ),
        _ => Err(SandboxError::AlreadyTerminal),
    }
}

/// The state after `prepare`, or the error it reports, given the workspace paths held
/// by other sandboxes: lifecycle errors first, then an unregistered runtime, then a
/// workspace path in use.
pub open spec fn prepare_result(s: SandboxState, q: SandboxRequest, held: Set<Seq<char>>) -> Result<
    SandboxState,
    SandboxError,
> {
    match prepare_step(s) {
        Err(e) => Err(e),
        Ok(n) => if !registered(q.compiler) {
            Err(SandboxError::UnsupportedLanguage)
        } else if held.contains(q.path@) {
            Err(SandboxError::PathConflict)
        } else {
            Ok(n)
        },
    }
}

/// The state after `run`, or the error it reports.
pub open spec fn run_step(s: SandboxState) -> Result<SandboxState, SandboxError> {
    match s {
        SandboxState::Prepared => Ok(SandboxState::Running),
        SandboxState::Created | SandboxState::StagingFailed => Err(SandboxError::NotPrepared),
        SandboxState::Running => Err(SandboxError::AlreadyRunning),
        _ => Err(SandboxError::AlreadyTerminal),
    }
}

/// The terminal state reached with a given outcome.
pub open spec fn terminal_for(status: ExecutionStatus) -> SandboxState {
    match status {
        ExecutionStatus::Succeeded | ExecutionStatus::RuntimeError => SandboxState::Completed,
        ExecutionStatus::TimedOut => SandboxState::TimedOut,
        _ => SandboxState::Failed,
    }
}

/// The state after an exit is reported with `status`, or the error reported.
pub open spec fn finish_step(s: SandboxState, status: ExecutionStatus) -> Result<
    SandboxState,
    SandboxError,
> {
    match s {
        SandboxState::Running => Ok(terminal_for(status)),
        SandboxState::Created | SandboxState::Prepared => Err(SandboxError::NotRunning),
        _ => Err(SandboxError::AlreadyTerminal),
    }
}

/// The state after staging is reported as failed, or the error reported.
pub open spec fn staging_failed_step(s: SandboxState) -> Result<SandboxState, SandboxError> {
    match s {
        SandboxState::Prepared => Ok(SandboxState::StagingFailed),
        SandboxState::Created => Err(SandboxError::NotPrepared),
        SandboxState::Running => Err(SandboxError::AlreadyRunning),
        _ => Err(SandboxError::AlreadyTerminal),
    }
}

/// The state and workspace after `cleanup`, or the error it reports. Cleanup is
/// refused only while the process runs. A prepared sandbox that is cleaned up is
/// abandoned and its workspace released; in any other state the state stays and a
/// workspace that was staged is released.
pub open spec fn cleanup_step(s: SandboxState, w: WorkspaceState) -> Result<
    (SandboxState, WorkspaceState),
    SandboxError,
> {
    if s == SandboxState::Running {
        Err(SandboxError::StillRunning)
    } else if s == SandboxState::Prepared {
        Ok((SandboxState::Abandoned, WorkspaceState::Released))
    } else if w == WorkspaceState::Absent {
        Ok((s, WorkspaceState::Absent))
    } else {
        Ok((s, WorkspaceState::Released))
    }
}

/// What the caller learns when a sandbox reaches a terminal state.
#[derive(Debug, Clone)]
pub struct ExecutionReport {
    pub status: ExecutionStatus,
    /// The exit code, when the program or its compile step ended on its own in time.
    pub exit_code: Option<i32>,
    pub stdout: Vec<String>,
    pub stderr: Vec<String>,
    /// Present exactly when the request carries a test.
    pub test_result: Option<SandboxTestResult>,
    /// The workspace directory the caller must now remove, if one was staged.
    pub workspace_to_remove: Option<String>,
}

/// Standard output is kept when the program ran to its own exit in time.
pub open spec fn keeps_stdout(status: ExecutionStatus) -> bool {
    status == ExecutionStatus::Succeeded || status == ExecutionStatus::RuntimeError
}

/// Standard error is kept whenever the program or its compile step ended on its own.
pub open spec fn keeps_stderr(status: ExecutionStatus) -> bool {
    keeps_stdout(status) || status == ExecutionStatus::CompileError
}

/// The test result for a request: a test passes when the program ended on its own
/// in time and its output meets the test, whatever its exit code.
pub open spec fn test_result_for(
    q: SandboxRequest,
    status: ExecutionStatus,
    stdout: Seq<Seq<char>>,
) -> Option<SandboxTestResult> {
    match q.test {
        Some(t) => Some(
            if keeps_stdout(status) && meets_expectation(t, stdout) {
                SandboxTestResult::Passed
            } else {
                SandboxTestResult::Failed
            },
        ),
        None => None,
    }
}

/// The report for a request that ended with `status`, given the text of its
/// output files.
pub open spec fn is_report_for(
    r: ExecutionReport,
    q: SandboxRequest,
    status: ExecutionStatus,
    exit_code: Option<i32>,
    stdout: Seq<char>,
    stderr: Seq<char>,
) -> bool {
    &&& r.status == status
    &&& r.exit_code == exit_code
    &&& (if keeps_stdout(status) {
        splits_into(stdout, views(r.stdout@))
    } else {
        r.stdout@.len() == 0
    })
    &&& (if keeps_stderr(status) {
        splits_into(stderr, views(r.stderr@))
    } else {
        r.stderr@.len() == 0
    })
    &&& r.test_result == test_result_for(q, status, views(r.stdout@))
    &&& (r.workspace_to_remove matches Some(p) && p@ == q.path@)
}

/// One request's pass through preparation, execution and cleanup. The sandbox makes
/// the decisions; its caller does the file system and process work it asks for.
pub struct Sandbox {
    request: SandboxRequest,
    state: SandboxState,
    workspace: WorkspaceState,
}

/// The test result of a request as given: `NotRan` when a test is attached.
pub open spec fn not_ran_for(q: SandboxRequest) -> Option<SandboxTestResult> {
    match q.test {
        Some(_) => Some(SandboxTestResult::NotRan),
        None => None,
    }
}

/// `a` is `b` with at most the recorded test result changed.
pub open spec fn same_request(a: SandboxRequest, b: SandboxRequest) -> bool {
    &&& a.id == b.id
    &&& a.timeout == b.timeout
    &&& a.path == b.path
    &&& a.source_code == b.source_code
    &&& a.compiler == b.compiler
    &&& match (a.test, b.test) {
        (Some(x), Some(y)) => x.id == y.id && x.stdin_data == y.stdin_data
            && x.expected_stdout_data == y.expected_stdout_data,
        (None, None) => true,
        _ => false,
    }
}

/// The recorded result of a request's test, if it has one.
pub open spec fn recorded_result(q: SandboxRequest) -> Option<SandboxTestResult> {
    match q.test {
        Some(t) => Some(t.result),
        None => None,
    }
}

impl Sandbox {
    /// The workspace is staged exactly while the sandbox is prepared or running, and
    /// the test result stays `NotRan` until the sandbox reports its outcome.
    pub closed spec fn wf(&self) -> bool {
        &&& (!is_settled(self.state) ==> recorded_result(self.request) == not_ran_for(
            self.request,
        ))
        &&& match self.state {
            SandboxState::Created => self.workspace == WorkspaceState::Absent,
            SandboxState::Prepared | SandboxState::Running => self.workspace
                == WorkspaceState::Staged,
            _ => self.workspace != WorkspaceState::Staged,
        }
    }

    pub closed spec fn lifecycle(&self) -> SandboxState {
        self.state
    }

    pub closed spec fn workspace_state(&self) -> WorkspaceState {
        self.workspace
    }

    pub closed spec fn spec_request(&self) -> SandboxRequest {
        self.request
    }

    /// A fresh sandbox bound to `request`. Its test, if any, starts as `NotRan`,
    /// whatever result the request carried.
    pub fn new(request: SandboxRequest) -> (s: Sandbox)
        ensures
            s.wf(),
            s.lifecycle() == SandboxState::Created,
            s.workspace_state() == WorkspaceState::Absent,
            same_request(s.spec_request(), request),
            recorded_result(s.spec_request()) == not_ran_for(request),
    {
        let mut request = request;
        match &mut request.test {
            Some(t) => {
                t.result = SandboxTestResult::NotRan;
            },
            None => {},
        }
        Sandbox { request, state: SandboxState::Created, workspace: WorkspaceState::Absent }
    }

    /// The outcome of the attached test: `NotRan` until the sandbox reports its
    /// outcome, then the result it reported.
    pub fn test_result(&self) -> (r: Option<SandboxTestResult>)
        ensures
            r == recorded_result(self.spec_request()),
    {
        match &self.request.test {
            Some(t) => Some(t.result),
            None => None,
        }
    }

    pub fn state(&self) -> (r: SandboxState)
        ensures
            r == self.lifecycle(),
    {
        self.state
    }

    pub fn workspace(&self) -> (r: WorkspaceState)
        ensures
            r == self.workspace_state(),
    {
        self.workspace
    }

    pub fn request(&self) -> (r: &SandboxRequest)
        ensures
            *r == self.spec_request(),
    {
        &self.request
    }

    /// Moves a fresh sandbox to `Prepared`, takes its workspace path in `registry`,
    /// and returns the workspace to stage. A runtime that is not in the registry is
    /// refused with `UnsupportedLanguage`, and a path held by another sandbox with
    /// `PathConflict`; on any error nothing changes.
    pub fn prepare(&mut self, registry: &mut WorkspaceRegistry) -> (r: Result<
        WorkspacePlan,
        SandboxError,
    >)
        requires
            old(self).wf(),
        ensures
            final(self).wf(),
            final(self).spec_request() == old(self).spec_request(),
            match prepare_result(
                old(self).lifecycle(),
                old(self).spec_request(),
                old(registry)@,
            ) {
                Ok(next) => {
                    &&& (r matches Ok(p) && is_plan_for(p, old(self).spec_request()))
                    &&& final(self).lifecycle() == next
                    &&& final(self).workspace_state() == WorkspaceState::Staged
                    &&& final(registry)@ == old(registry)@.insert(old(self).spec_request().path@)
                },
                Err(e) => {
                    &&& r == Err::<WorkspacePlan, SandboxError>(e)
                    &&& final(self).lifecycle() == old(self).lifecycle()
                    &&& final(self).workspace_state() == old(self).workspace_state()
                    &&& final(registry)@ == old(registry)@
                },
            },
    {
        match self.state {
            SandboxState::Created => {
                if !is_registered(&self.request.compiler) {
                    return Err(SandboxError::UnsupportedLanguage);
                }
                match registry.acquire(self.request.path.clone()) {
                    Ok(()) => {},
                    Err(e) => {
                        return Err(e);
                    },
                }
                let plan = plan_workspace(&self.request);
                self.state = SandboxState::Prepared;
                self.workspace = WorkspaceState::Staged;
                Ok(plan)
            },
            SandboxState::Prepared | SandboxState::Running | SandboxState::StagingFailed => Err(
                SandboxError::AlreadyPrepared,
            ),
            _ => Err(SandboxError::AlreadyTerminal),
        }
    }

    /// Moves a prepared sandbox to `Running` and returns how to start the process.
    pub fn run(&mut self) -> (r: Result<Invocation, SandboxError>)
        requires
            old(self).wf(),
        ensures
            final(self).wf(),
            final(self).spec_request() == old(self).spec_request(),
            final(self).workspace_state() == old(self).workspace_state(),
            match run_step(old(self).lifecycle()) {
                Ok(next) => {
                    &&& (r matches Ok(i) && is_invocation_for(i, old(self).spec_request()))
                    &&& final(self).lifecycle() == next
                },
                Err(e) => {
                    &&& r == Err::<Invocation, SandboxError>(e)
                    &&& final(self).lifecycle() == old(self).lifecycle()
                },
            },
    {
        match self.state {
            SandboxState::Prepared => {
                let invocation = build_invocation(&self.request);
                self.state = SandboxState::Running;
                Ok(invocation)
            },
            SandboxState::Created | SandboxState::StagingFailed => Err(SandboxError::NotPrepared),
            SandboxState::Running => Err(SandboxError::AlreadyRunning),
            _ => Err(SandboxError::AlreadyTerminal),
        }
    }

    /// The report for the request under `status`, from the text of the output files.
    fn report(
        &self,
        status: ExecutionStatus,
        exit_code: Option<i32>,
        stdout: &str,
        stderr: &str,
    ) -> (r: ExecutionReport)
        ensures
            is_report_for(r, self.request, status, exit_code, stdout@, stderr@),
    {
        let ran = status == ExecutionStatus::Succeeded || status == ExecutionStatus::RuntimeError;
        let out_lines = if ran {
            split_lines(stdout)
        } else {
            Vec::new()
        };
        let err_lines = if ran || status == ExecutionStatus::CompileError {
            split_lines(stderr)
        } else {
            Vec::new()
        };
        let test_result = match &self.request.test {
            Some(t) => {
                if ran {
                    Some(verify(t, &out_lines))
                } else {
                    Some(SandboxTestResult::Failed)
                }
            },
            None => None,
        };
        ExecutionReport {
            status,
            exit_code,
            stdout: out_lines,
            stderr: err_lines,
            test_result,
            workspace_to_remove: Some(self.request.path.clone()),
        }
    }

    /// Records the test result of the report on the request's test.
    fn record_test_result(&mut self, result: Option<SandboxTestResult>)
        requires
            recorded_result(old(self).request) == not_ran_for(old(self).request),
            result is Some <==> old(self).request.test is Some,
        ensures
            final(self).state == old(self).state,
            final(self).workspace == old(self).workspace,
            same_request(final(self).request, old(self).request),
            recorded_result(final(self).request) == result,
    {
        match (&mut self.request.test, result) {
            (Some(t), Some(x)) => {
                t.result = x;
            },
            _ => {},
        }
    }

    /// Records how the process ended and moves a running sandbox to its terminal
    /// state. `stdout` and `stderr` are the contents of the output files, read after
    /// the process reported its exit. The workspace path is given back to `registry`
    /// and handed to the caller for removal.
    pub fn finish(
        &mut self,
        registry: &mut WorkspaceRegistry,
        event: ProcessEvent,
        stdout: &str,
        stderr: &str,
    ) -> (r: Result<ExecutionReport, SandboxError>)
        requires
            old(self).wf(),
        ensures
            final(self).wf(),
            match finish_step(
                old(self).lifecycle(),
                status_of(event, old(self).spec_request().timeout),
            ) {
                Ok(next) => {
                    &&& (r matches Ok(rep) && is_report_for(
                        rep,
                        old(self).spec_request(),
                        status_of(event, old(self).spec_request().timeout),
                        exit_code_of(event, old(self).spec_request().timeout),
                        stdout@,
                        stderr@,
                    ))
                    &&& (r matches Ok(rep) && recorded_result(final(self).spec_request())
                        == rep.test_result)
                    &&& same_request(final(self).spec_request(), old(self).spec_request())
                    &&& final(self).lifecycle() == next
                    &&& final(self).workspace_state() == WorkspaceState::Released
                    &&& final(registry)@ == old(registry)@.remove(old(self).spec_request().path@)
                },
                Err(e) => {
                    &&& r == Err::<ExecutionReport, SandboxError>(e)
                    &&& final(self).spec_request() == old(self).spec_request()
                    &&& final(self).lifecycle() == old(self).lifecycle()
                    &&& final(self).workspace_state() == old(self).workspace_state()
                    &&& final(registry)@ == old(registry)@
                },
            },
    {
        match self.state {
            SandboxState::Running => {
                let status = classify(event, self.request.timeout);
                let exit_code = reported_exit_code(event, self.request.timeout);
                let rep = self.report(status, exit_code, stdout, stderr);
                self.record_test_result(rep.test_result);
                registry.release(&self.request.path);
                self.state =
                    match status {
                        ExecutionStatus::Succeeded | ExecutionStatus::RuntimeError => SandboxState::Completed,
                        ExecutionStatus::TimedOut => SandboxState::TimedOut,
                        _ => SandboxState::Failed,
                    };
                self.workspace = WorkspaceState::Released;
                Ok(rep)
            },
            SandboxState::Created | SandboxState::Prepared => Err(SandboxError::NotRunning),
            _ => Err(SandboxError::AlreadyTerminal),
        }
    }

    /// Records that staging the workspace failed: a prepared sandbox reports
    /// `IOError`, never runs (`run` then fails with `NotPrepared`), gives its path back
    /// to `registry`, and hands the partly staged workspace to the caller for removal.
    pub fn staging_failed(&mut self, registry: &mut WorkspaceRegistry) -> (r: Result<
        ExecutionReport,
        SandboxError,
    >)
        requires
            old(self).wf(),
        ensures
            final(self).wf(),
            match staging_failed_step(old(self).lifecycle()) {
                Ok(next) => {
                    &&& (r matches Ok(rep) && is_report_for(
                        rep,
                        old(self).spec_request(),
                        ExecutionStatus::IOError,
                        None,
                        Seq::empty(),
                        Seq::empty(),
                    ))
                    &&& (r matches Ok(rep) && recorded_result(final(self).spec_request())
                        == rep.test_result)
                    &&& same_request(final(self).spec_request(), old(self).spec_request())
                    &&& final(self).lifecycle() == next
                    &&& final(self).workspace_state() == WorkspaceState::Released
                    &&& final(registry)@ == old(registry)@.remove(old(self).spec_request().path@)
                },
                Err(e) => {
                    &&& r == Err::<ExecutionReport, SandboxError>(e)
                    &&& final(self).spec_request() == old(self).spec_request()
                    &&& final(self).lifecycle() == old(self).lifecycle()
                    &&& final(self).workspace_state() == old(self).workspace_state()
                    &&& final(registry)@ == old(registry)@
                },
            },
    {
        match self.state {
            SandboxState::Prepared => {
                let rep = self.report(ExecutionStatus::IOError, None, "", "");
                self.record_test_result(rep.test_result);
                registry.release(&self.request.path);
                self.state = SandboxState::StagingFailed;
                self.workspace = WorkspaceState::Released;
                Ok(rep)
            },
            SandboxState::Created => Err(SandboxError::NotPrepared),
            SandboxState::Running => Err(SandboxError::AlreadyRunning),
            _ => Err(SandboxError::AlreadyTerminal),
        }
    }

    /// Hands back the workspace directory to remove, if it is still staged, and gives
    /// its path back to `registry`. Refused only while the process runs: a prepared
    /// sandbox is abandoned and can no longer run, and in any other state a second
    /// call succeeds and hands back nothing.
    pub fn cleanup(&mut self, registry: &mut WorkspaceRegistry) -> (r: Result<
        Option<String>,
        SandboxError,
    >)
        requires
            old(self).wf(),
        ensures
            final(self).wf(),
            final(self).spec_request() == old(self).spec_request(),
            match cleanup_step(old(self).lifecycle(), old(self).workspace_state()) {
                Ok((s, w)) => {
                    &&& (old(self).workspace_state() == WorkspaceState::Staged ==> (r matches Ok(
                        Some(p),
                    ) && p@ == old(self).spec_request().path@))
                    &&& (old(self).workspace_state() != WorkspaceState::Staged ==> r
                        == Ok::<Option<String>, SandboxError>(None))
                    &&& final(self).lifecycle() == s
                    &&& final(self).workspace_state() == w
                    &&& final(registry)@ == if old(self).lifecycle() == SandboxState::Prepared {
                        old(registry)@.remove(old(self).spec_request().path@)
                    } else {
                        old(registry)@
                    }
                },
                Err(e) => {
                    &&& r == Err::<Option<String>, SandboxError>(e)
                    &&& final(self).lifecycle() == old(self).lifecycle()
                    &&& final(self).workspace_state() == old(self).workspace_state()
                    &&& final(registry)@ == old(registry)@
                },
            },
    {
        if self.state == SandboxState::Running {
            return Err(SandboxError::StillRunning);
        }
        if self.state == SandboxState::Prepared {
            registry.release(&self.request.path);
            self.state = SandboxState::Abandoned;
        }
        match self.workspace {
            WorkspaceState::Staged => {
                self.workspace = WorkspaceState::Released;
                Ok(Some(self.request.path.clone()))
            },
            _ => Ok(None),
        }
    }
}

/// Every request ends in exactly one outcome. A running sandbox that reports how its
/// process ended, and a prepared one whose staging failed, settle under a single
/// status; once settled, no call that reports an outcome, prepares or runs succeeds,
/// so no second outcome can follow.
pub proof fn lemma_single_outcome(
    event: ProcessEvent,
    timeout: u8,
    t: SandboxState,
    later: ExecutionStatus,
)
    requires
        is_settled(t),
    ensures
        finish_step(SandboxState::Running, status_of(event, timeout)) matches Ok(n) && is_settled(
            n,
        ),
        staging_failed_step(SandboxState::Prepared) matches Ok(n) && is_settled(n),
        prepare_step(t) is Err,
        run_step(t) is Err,
        finish_step(t, later) == Err::<SandboxState, SandboxError>(SandboxError::AlreadyTerminal),
        staging_failed_step(t) == Err::<SandboxState, SandboxError>(SandboxError::AlreadyTerminal),
{
}

/// Cleanup is idempotent: whenever the process is not running, a first cleanup
/// succeeds and leaves no staged workspace, and a second succeeds, changes nothing
/// and releases nothing more.
pub proof fn lemma_cleanup_idempotent(s: SandboxState, w: WorkspaceState)
    requires
        s != SandboxState::Running,
    ensures
        cleanup_step(s, w) matches Ok((s1, w1)) && w1 != WorkspaceState::Staged && cleanup_step(
            s1,
            w1,
        ) == Ok::<(SandboxState, WorkspaceState), SandboxError>((s1, w1)),
{
}

/// A sandbox is prepared at most once: after a `prepare` that succeeded, or one
/// refused for the lifecycle, a second `prepare` fails with a lifecycle error. `run`
/// before a successful `prepare`, or after staging failed, fails with `NotPrepared`.
pub proof fn lemma_prepare_once(s: SandboxState, q: SandboxRequest, held: Set<Seq<char>>, later: Set<Seq<char>>)
    ensures
        prepare_result(s, q, held) matches Ok(n) ==> prepare_result(n, q, later)
            == Err::<SandboxState, SandboxError>(SandboxError::AlreadyPrepared),
        prepare_step(s) is Err ==> prepare_result(s, q, later) == prepare_step(s),
        run_step(SandboxState::Created) == Err::<SandboxState, SandboxError>(
            SandboxError::NotPrepared,
        ),
        run_step(SandboxState::StagingFailed) == Err::<SandboxState, SandboxError>(
            SandboxError::NotPrepared,
        ),
        cleanup_step(SandboxState::Prepared, WorkspaceState::Staged) matches Ok((a, _)) && run_step(
            a,
        ) is Err && prepare_step(a) is Err,
{
}

/// An unknown runtime is refused before anything is staged: `prepare` on a fresh
/// sandbox whose runtime is not in the registry fails with `UnsupportedLanguage`,
/// whatever paths are held, and so leaves no workspace behind.
pub proof fn lemma_unknown_runtime_refused(q: SandboxRequest, held: Set<Seq<char>>)
    requires
        !registered(q.compiler),
    ensures
        prepare_result(SandboxState::Created, q, held) == Err::<SandboxState, SandboxError>(
            SandboxError::UnsupportedLanguage,
        ),
{
}

} // verus!
