//! Shared assertions to test HTTP responses

use vstd::prelude::*;

use crate::http_client::is_redirection_code;
use crate::http_client::is_success_code;
use crate::http_client::status_text;
use crate::http_client::Outcome;
use crate::http_client::OutcomeView;
use crate::http_client::Response;
use crate::http_client::ResponseView;
use crate::order::views;
use crate::test::TestResult;
use crate::test::TestResultView;
use crate::text::join2;
use crate::text::same_text;

verus! {

/// What the result of a test that found what it expected says
pub open spec fn passed(name: Seq<char>) -> TestResultView {
    TestResultView { name, success: true, message: None }
}

/// What the result of a test that failed says
pub open spec fn failed(name: Seq<char>, message: Seq<char>) -> TestResultView {
    TestResultView { name, success: false, message: Some(message) }
}

impl ResponseView {
    /// Whether the response is a redirect
    pub open spec fn is_redirect(self) -> bool {
        is_redirection_code(self.status)
    }

    /// Whether the response redirects to the address `url`
    pub open spec fn redirects_to(self, url: Seq<char>) -> bool {
        self.header("location"@) == Some(url)
    }
}

/// Check if a response is a redirect
pub fn is_redirect(response: &Response) -> (r: bool)
    ensures
        r == response@.is_redirect(),
{
    response.status.is_redirection()
}

/// Check if a response redirects to the given URL
pub fn redirects_to(response: &Response, url: &str) -> (r: bool)
    ensures
        r == response@.redirects_to(url@),
{
    match response.header("location") {
        Some(location) => same_text(location.as_str(), url),
        None => false,
    }
}

/// What a test concludes that expects a status that says success: `expectation` is how its
/// message starts where another status came
pub open spec fn success_result(
    name: Seq<char>,
    expectation: Seq<char>,
    outcome: OutcomeView,
) -> TestResultView {
    match outcome {
        OutcomeView::Failed(error) => failed(name, error),
        OutcomeView::Received(response) => if is_success_code(response.status) {
            passed(name)
        } else {
            failed(name, expectation + status_text(response.status))
        },
    }
}

/// Expect a status that says success
///
/// If the request failed, the test fails with the error message. If the status is not within
/// 200-299, the test fails with `expectation` followed by the status that came.
pub fn expect_success(name: &'static str, expectation: &str, outcome: &Outcome) -> (result:
    TestResult)
    ensures
        result@ == success_result(name@, expectation@, outcome@),
{
    match outcome {
        Outcome::Failed(error) => TestResult::failed(name, error.clone()),
        Outcome::Received(response) => {
            if response.status.is_success() {
                TestResult::passed(name)
            } else {
                let status = response.status.to_string();
                TestResult::failed(name, join2(expectation, status.as_str()))
            }
        },
    }
}

/// The first result from position `i` on that is a failure
pub open spec fn first_failure_from(results: Seq<TestResultView>, i: int) -> Option<TestResultView>
    decreases results.len() - i,
{
    if i < 0 || i >= results.len() {
        None
    } else if !results[i].success {
        Some(results[i])
    } else {
        first_failure_from(results, i + 1)
    }
}

/// What a test concludes that made several requests: the first failure among their results,
/// and success where none of them failed
pub open spec fn summary(name: Seq<char>, results: Seq<TestResultView>) -> TestResultView {
    match first_failure_from(results, 0) {
        Some(failure) => failure,
        None => passed(name),
    }
}

/// Sum up the results of the requests of one test
///
/// The test fails with the first failure among the results. It passes if there is none.
pub fn summarize(name: &'static str, results: &Vec<TestResult>) -> (result: TestResult)
    ensures
        result@ == summary(name@, views(results@)),
{
    let ghost all = views(results@);
    let mut i: usize = 0;
    while i < results.len()
        invariant
            i <= results.len(),
            all == views(results@),
            first_failure_from(all, 0) == first_failure_from(all, i as int),
        decreases results.len() - i,
    {
        if !results[i].success() {
            return results[i].clone();
        }
        i += 1;
    }
    TestResult::passed(name)
}

} // verus!
