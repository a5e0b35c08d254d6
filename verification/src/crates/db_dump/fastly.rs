//! Test the database dumps on Fastly

use vstd::prelude::*;

use crate::assertion::failed;
use crate::assertion::is_redirect;
use crate::assertion::passed;
use crate::assertion::redirects_to;
use crate::assertion::summarize;
use crate::assertion::summary;
use crate::crates::db_dump::artifact_names;
use crate::crates::db_dump::artifacts;
use crate::http_client::custom_http_client;
use crate::http_client::ClientView;
use crate::http_client::Method;
use crate::http_client::Outcome;
use crate::http_client::OutcomeView;
use crate::http_client::Request;
use crate::http_client::RequestView;
use crate::order::views;
use crate::test::Test;
use crate::test::TestResult;
use crate::test::TestResultView;
use crate::text::join3;
use crate::text::join4;

use super::config::Config;
use super::config::ConfigView;

verus! {

/// The name of the test
pub const NAME: &'static str = "Fastly";

/// Test the database dumps on Fastly
///
/// This test asks Fastly for the headers of each database dump. It expects a redirect to the
/// same dump on CloudFront for each of them.
pub struct Fastly<'a> {
    /// Configuration for this test
    config: &'a Config,
}

/// The request for the headers of `path` on Fastly, where a redirect is not followed
pub open spec fn path_plan(config: ConfigView, path: Seq<char>) -> RequestView {
    ClientView::custom().no_redirects().request(Method::Head, config.fastly_url + "/"@ + path)
}

/// What the test concludes of the database dump `path`
///
/// If the request failed, the test fails with the error message. It fails if the response is
/// not a redirect to the dump on CloudFront, and then names the address that answered.
pub open spec fn path_result(
    config: ConfigView,
    path: Seq<char>,
    outcome: OutcomeView,
) -> TestResultView {
    match outcome {
        OutcomeView::Failed(error) => failed(NAME@, error),
        OutcomeView::Received(response) => {
            let expected_location = config.cloudfront_url + "/"@ + path;
            if response.is_redirect() && response.redirects_to(expected_location) {
                passed(NAME@)
            } else {
                failed(
                    NAME@,
                    "Expected a redirect to "@ + expected_location + ", got "@ + response.url,
                )
            }
        },
    }
}

/// What the test concludes of each database dump
pub open spec fn path_results(config: ConfigView, outcomes: Seq<OutcomeView>) -> Seq<
    TestResultView,
> {
    Seq::new(outcomes.len(), |i: int| path_result(config, artifact_names()[i], outcomes[i]))
}

impl<'a> View for Fastly<'a> {
    type V = ConfigView;

    closed spec fn view(&self) -> ConfigView {
        self.config@
    }
}

impl<'a> Fastly<'a> {
    /// Create a new instance of the test
    pub fn new(config: &'a Config) -> (test: Self)
        ensures
            test@ == config@,
    {
        Self { config }
    }

    /// The request for the headers of `path`
    pub fn path_request(&self, path: &str) -> (request: Request)
        ensures
            request@ == path_plan(self@, path@),
    {
        // Don't follow the redirect, we want to check the redirect location
        custom_http_client().no_redirects().head(
            join3(self.config.fastly_url().as_str(), "/", path),
        )
    }

    /// Expect a redirect to `path` on CloudFront
    pub fn expect_redirect(&self, path: &str, outcome: &Outcome) -> (result: TestResult)
        ensures
            result@ == path_result(self@, path@, outcome@),
    {
        let response = match outcome {
            Outcome::Failed(error) => {
                return TestResult::failed(NAME, error.clone());
            },
            Outcome::Received(response) => response,
        };

        let expected_location = join3(self.config.cloudfront_url().as_str(), "/", path);

        if is_redirect(response) && redirects_to(response, expected_location.as_str()) {
            TestResult::passed(NAME)
        } else {
            TestResult::failed(
                NAME,
                join4(
                    "Expected a redirect to ",
                    expected_location.as_str(),
                    ", got ",
                    response.url.as_str(),
                ),
            )
        }
    }
}

impl<'a> Test for Fastly<'a> {
    open spec fn plan(config: ConfigView) -> Seq<RequestView> {
        artifact_names().map_values(|path: Seq<char>| path_plan(config, path))
    }

    open spec fn result(config: ConfigView, outcomes: Seq<OutcomeView>) -> TestResultView {
        summary(NAME@, path_results(config, outcomes))
    }

    fn requests(&self) -> (requests: Vec<Request>) {
        let artifacts = artifacts();
        let mut requests: Vec<Request> = Vec::new();
        let mut i: usize = 0;
        while i < artifacts.len()
            invariant
                i <= artifacts.len(),
                views(artifacts@) == artifact_names(),
                views(requests@) == Self::plan(self@).take(i as int),
            decreases artifacts.len() - i,
        {
            let ghost before = requests@;
            let request = self.path_request(artifacts[i]);
            requests.push(request);
            proof {
                assert(views(artifacts@)[i as int] == artifacts@[i as int]@);
                assert(views(requests@) =~= views(before).push(request@));
                assert(Self::plan(self@).take(i + 1) =~= Self::plan(self@).take(i as int).push(
                    path_plan(self@, artifact_names()[i as int]),
                ));
            }
            i += 1;
        }
        assert(Self::plan(self@).take(artifacts@.len() as int) =~= Self::plan(self@));
        requests
    }

    fn run(&self, outcomes: &Vec<Outcome>) -> (result: TestResult) {
        let artifacts = artifacts();
        let ghost expected = path_results(self@, views(outcomes@));
        let mut results: Vec<TestResult> = Vec::new();
        let mut i: usize = 0;
        while i < outcomes.len()
            invariant
                i <= outcomes.len(),
                outcomes@.len() == artifacts@.len(),
                views(artifacts@) == artifact_names(),
                expected == path_results(self@, views(outcomes@)),
                views(results@) == expected.take(i as int),
            decreases outcomes.len() - i,
        {
            let ghost before = results@;
            let result = self.expect_redirect(artifacts[i], &outcomes[i]);
            results.push(result);
            proof {
                assert(views(artifacts@)[i as int] == artifacts@[i as int]@);
                assert(views(results@) =~= views(before).push(result@));
                assert(expected.take(i + 1) =~= expected.take(i as int).push(
                    path_result(self@, artifact_names()[i as int], outcomes@[i as int]@),
                ));
            }
            i += 1;
        }
        assert(expected.take(outcomes@.len() as int) =~= expected);
        summarize(NAME, &results)
    }
}

} // verus!
