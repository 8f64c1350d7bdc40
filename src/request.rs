use vstd::prelude::*;
use crate::compiler::{LanguageCompiler, is_javascript, is_python, lookup, supported_language};
use crate::error::SandboxError;

verus! {

/// Outcome of the optional test attached to a request.
#[derive(Debug, Clone, Copy, PartialEq, Eq, Structural)]
pub enum SandboxTestResult {
    /// The program has not yet run; every test starts here.
    NotRan,
    /// The program ran and its output did not match the expected output.
    Failed,
    /// The program ran and its output matched the expected output line for line.
    Passed,
}

/// An input/expected-output check attached to a request.
#[derive(Debug, Clone)]
pub struct SandboxTest {
    /// Identifier that ties the result back to the request.
    pub id: String,
    /// Lines handed to the program on standard input.
    pub stdin_data: Option<Vec<String>>,
    /// Lines the program is expected to write to standard output.
    pub expected_stdout_data: Option<Vec<String>>,
    /// The outcome; `NotRan` until the run completes, then set once.
    pub result: SandboxTestResult,
}

impl SandboxTest {
    /// A test that has not run yet.
    pub fn new(
        id: String,
        stdin_data: Option<Vec<String>>,
        expected_stdout_data: Option<Vec<String>>,
    ) -> (t: SandboxTest)
        ensures
            t.id == id,
            t.stdin_data == stdin_data,
            t.expected_stdout_data == expected_stdout_data,
            t.result == SandboxTestResult::NotRan,
    {
        SandboxTest { id, stdin_data, expected_stdout_data, result: SandboxTestResult::NotRan }
    }

}

/// Everything needed to stage and run one piece of submitted code.
#[derive(Debug, Clone)]
pub struct SandboxRequest {
    /// Identifier that ties the response back to the request.
    pub id: String,
    /// Hard wall-clock limit on the run, in seconds.
    pub timeout: u8,
    /// The workspace directory; unique among requests in flight.
    pub path: String,
    /// The source code, one entry per line.
    pub source_code: Vec<String>,
    /// The runtime that executes the code.
    pub compiler: LanguageCompiler,
    /// The optional output check.
    pub test: Option<SandboxTest>,
}

impl SandboxRequest {
    /// Builds a request for the registry entry of `language`. An unknown language
    /// is rejected with `UnsupportedLanguage` before anything is staged.
    pub fn for_language(
        id: String,
        timeout: u8,
        path: String,
        source_code: Vec<String>,
        language: &str,
        test: Option<SandboxTest>,
    ) -> (r: Result<SandboxRequest, SandboxError>)
        ensures
            r is Ok <==> supported_language(language@),
            !supported_language(language@) ==> r == Err::<SandboxRequest, SandboxError>(
                SandboxError::UnsupportedLanguage,
            ),
            r matches Ok(q) ==> {
                &&& q.id == id
                &&& q.timeout == timeout
                &&& q.path == path
                &&& q.source_code == source_code
                &&& q.compiler.language@ == language@
                &&& q.compiler.wf()
                &&& (language@ == "python"@ ==> is_python(q.compiler))
                &&& (language@ == "Javascript"@ ==> is_javascript(q.compiler))
                &&& q.test == test
            },
    {
        match lookup(language) {
            Ok(compiler) => Ok(SandboxRequest { id, timeout, path, source_code, compiler, test }),
            Err(e) => Err(e),
        }
    }
}

} // verus!
