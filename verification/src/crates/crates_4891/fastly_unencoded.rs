//! Test Fastly with an un-encoded URL

use vstd::prelude::*;

use crate::crates::crates_4891::expect_status;
use crate::crates::crates_4891::fastly_address;
use crate::crates::crates_4891::status_plan;
use crate::crates::crates_4891::status_request;
use crate::crates::crates_4891::status_result;
use crate::crates::utils::crate_url;
use crate::http_client::Outcome;
use crate::http_client::OutcomeView;
use crate::http_client::Request;
use crate::http_client::RequestView;
use crate::http_client::Status;
use crate::order::views;
use crate::test::Test;
use crate::test::TestResult;
use crate::test::TestResultView;

use super::config::Config;
use super::config::ConfigView;

verus! {

/// The name of the test
pub const NAME: &'static str = "Fastly unencoded";

/// Test Fastly with an un-encoded URL
///
/// This test requests a URL with an un-encoded `+` character from Fastly. The test expects the
/// CDN to return an HTTP 200 OK response.
pub struct FastlyUnencoded<'a> {
    /// Configuration for this test
    config: &'a Config,
}

impl<'a> View for FastlyUnencoded<'a> {
    type V = ConfigView;

    closed spec fn view(&self) -> ConfigView {
        self.config@
    }
}

impl<'a> FastlyUnencoded<'a> {
    /// Create a new instance of the test
    pub fn new(config: &'a Config) -> (test: Self)
        ensures
            test@ == config@,
    {
        Self { config }
    }
}

impl<'a> Test for FastlyUnencoded<'a> {
    open spec fn plan(config: ConfigView) -> Seq<RequestView> {
        seq![status_plan(fastly_address(config))]
    }

    open spec fn result(config: ConfigView, outcomes: Seq<OutcomeView>) -> TestResultView {
        status_result(NAME@, 200, outcomes[0])
    }

    fn requests(&self) -> (requests: Vec<Request>) {
        let url = crate_url(
            self.config.fastly_url().as_str(),
            self.config.krate().as_str(),
            self.config.version().as_str(),
        );
        let requests = vec![status_request(url)];
        assert(views(requests@) =~= Self::plan(self@));
        requests
    }

    fn run(&self, outcomes: &Vec<Outcome>) -> (result: TestResult) {
        expect_status(NAME, Status::ok(), &outcomes[0])
    }
}

} // verus!
