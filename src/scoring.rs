use vstd::prelude::*;
use crate::request::{SandboxTest, SandboxTestResult};
use crate::text::{lines_equal, views};

verus! {

/// Whether `actual` meets what the test expects: every line equal, in order, and
/// the same number of lines. A test without expected output expects nothing.
pub open spec fn meets_expectation(test: SandboxTest, actual: Seq<Seq<char>>) -> bool {
    match test.expected_stdout_data {
        Some(expected) => views(expected@) == actual,
        None => true,
    }
}

/// Scores the captured standard output against the test.
pub fn verify(test: &SandboxTest, actual: &Vec<String>) -> (r: SandboxTestResult)
    ensures
        r == if meets_expectation(*test, views(actual@)) {
            SandboxTestResult::Passed
        } else {
            SandboxTestResult::Failed
        },
{
    match &test.expected_stdout_data {
        Some(expected) => {
            if lines_equal(expected, actual) {
                SandboxTestResult::Passed
            } else {
                SandboxTestResult::Failed
            }
        },
        None => SandboxTestResult::Passed,
    }
}

/// Scoring is exact: a test passes on output equal to its expected lines, in order,
/// and fails on output with another number of lines or with any line that differs.
pub proof fn lemma_scoring_exact(test: SandboxTest, actual: Seq<Seq<char>>)
    requires
        test.expected_stdout_data is Some,
    ensures
        ({
            let expected = views(test.expected_stdout_data->Some_0@);
            &&& expected == actual ==> meets_expectation(test, actual)
            &&& expected.len() != actual.len() ==> !meets_expectation(test, actual)
            &&& forall|k: int|
                0 <= k < expected.len() && k < actual.len() && #[trigger] expected[k] != actual[k]
                    ==> !meets_expectation(test, actual)
        }),
{
}

} // verus!
