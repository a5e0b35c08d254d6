//! Test the database dumps on CloudFront

use std::sync::Arc;

use vstd::prelude::*;

use crate::assertion::expect_success;
use crate::assertion::success_result;
use crate::assertion::summarize;
use crate::assertion::summary;
use crate::crates::db_dump::artifact_names;
use crate::crates::db_dump::artifacts;
use crate::http_client::custom_http_client;
use crate::http_client::ClientView;
use crate::http_client::Method;
use crate::http_client::Outcome;
use crate::http_client::OutcomeView;
use crate::http_client::Request;
use crate::http_client::RequestView;
use crate::order::views;
use crate::test::Test;
use crate::test::TestResult;
use crate::test::TestResultView;
use crate::text::join3;

use super::config::Config;
use super::config::ConfigView;

verus! {

/// The name of the test
pub const NAME: &'static str = "CloudFront";

/// Test the database dumps on CloudFront
///
/// This test asks CloudFront for the headers of each database dump. It expects a response with
/// a status that says success for each of them.
pub struct CloudFront {
    /// Configuration for this test
    config: Arc<Config>,
}

/// The request for the headers of `path` on CloudFront
pub open spec fn path_plan(config: ConfigView, path: Seq<char>) -> RequestView {
    ClientView::custom().request(Method::Head, config.cloudfront_url + "/"@ + path)
}

/// What the test concludes of one database dump
pub open spec fn path_result(outcome: OutcomeView) -> TestResultView {
    success_result(NAME@, "Expected HTTP 200, got HTTP "@, outcome)
}

impl View for CloudFront {
    type V = ConfigView;

    closed spec fn view(&self) -> ConfigView {
        self.config@
    }
}

impl CloudFront {
    /// Create a new instance of the test
    pub fn new(config: Arc<Config>) -> (test: Self)
        ensures
            test@ == config@,
    {
        Self { config }
    }

    /// The request for the headers of `path`
    pub fn path_request(&self, path: &str) -> (request: Request)
        ensures
            request@ == path_plan(self@, path@),
    {
        custom_http_client().head(join3(self.config.cloudfront_url().as_str(), "/", path))
    }
}

impl Test for CloudFront {
    open spec fn plan(config: ConfigView) -> Seq<RequestView> {
        artifact_names().map_values(|path: Seq<char>| path_plan(config, path))
    }

    open spec fn result(config: ConfigView, outcomes: Seq<OutcomeView>) -> TestResultView {
        summary(NAME@, outcomes.map_values(|outcome: OutcomeView| path_result(outcome)))
    }

    fn requests(&self) -> (requests: Vec<Request>) {
        let artifacts = artifacts();
        let mut requests: Vec<Request> = Vec::new();
        let mut i: usize = 0;
        while i < artifacts.len()
            invariant
                i <= artifacts.len(),
                views(artifacts@) == artifact_names(),
                views(requests@) == Self::plan(self@).take(i as int),
            decreases artifacts.len() - i,
        {
            let ghost before = requests@;
            let request = self.path_request(artifacts[i]);
            requests.push(request);
            proof {
                assert(views(artifacts@)[i as int] == artifacts@[i as int]@);
                assert(views(requests@) =~= views(before).push(request@));
                assert(Self::plan(self@).take(i + 1) =~= Self::plan(self@).take(i as int).push(
                    path_plan(self@, artifact_names()[i as int]),
                ));
            }
            i += 1;
        }
        assert(Self::plan(self@).take(artifacts@.len() as int) =~= Self::plan(self@));
        requests
    }

    fn run(&self, outcomes: &Vec<Outcome>) -> (result: TestResult) {
        let ghost expected = views(outcomes@).map_values(
            |outcome: OutcomeView| path_result(outcome),
        );
        let mut results: Vec<TestResult> = Vec::new();
        let mut i: usize = 0;
        while i < outcomes.len()
            invariant
                i <= outcomes.len(),
                expected == views(outcomes@).map_values(
                    |outcome: OutcomeView| path_result(outcome),
                ),
                views(results@) == expected.take(i as int),
            decreases outcomes.len() - i,
        {
            let ghost before = results@;
            let result = expect_success(NAME, "Expected HTTP 200, got HTTP ", &outcomes[i]);
            results.push(result);
            proof {
                assert(views(results@) =~= views(before).push(result@));
                assert(expected.take(i + 1) =~= expected.take(i as int).push(
                    path_result(outcomes@[i as int]@),
                ));
            }
            i += 1;
        }
        assert(expected.take(outcomes@.len() as int) =~= expected);
        summarize(NAME, &results)
    }
}

} // verus!
