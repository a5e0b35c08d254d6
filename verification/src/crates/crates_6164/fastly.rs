//! Test the CORS headers on Fastly

use std::sync::Arc;

use vstd::prelude::*;

use crate::crates::crates_6164::cors_plan;
use crate::crates::crates_6164::cors_request;
use crate::crates::crates_6164::cors_result;
use crate::crates::crates_6164::expect_cors_header;
use crate::crates::utils::crate_address;
use crate::crates::utils::crate_url;
use crate::http_client::Outcome;
use crate::http_client::OutcomeView;
use crate::http_client::Request;
use crate::http_client::RequestView;
use crate::order::views;
use crate::test::Test;
use crate::test::TestResult;
use crate::test::TestResultView;

use super::config::Config;
use super::config::ConfigView;

verus! {

/// The name of the test
pub const NAME: &'static str = "Fastly";

/// Test the CORS headers on Fastly
///
/// This test requests a crate from Fastly and expects the response to allow requests
/// from any origin.
pub struct Fastly {
    /// Configuration for this test
    config: Arc<Config>,
}

impl View for Fastly {
    type V = ConfigView;

    closed spec fn view(&self) -> ConfigView {
        self.config@
    }
}

impl Fastly {
    /// Create a new instance of the test
    pub fn new(config: Arc<Config>) -> (test: Self)
        ensures
            test@ == config@,
    {
        Self { config }
    }
}

impl Test for Fastly {
    open spec fn plan(config: ConfigView) -> Seq<RequestView> {
        seq![cors_plan(crate_address(config.fastly_url, config.krate, config.version))]
    }

    open spec fn result(config: ConfigView, outcomes: Seq<OutcomeView>) -> TestResultView {
        cors_result(NAME@, outcomes[0])
    }

    fn requests(&self) -> (requests: Vec<Request>) {
        let url = crate_url(
            self.config.fastly_url().as_str(),
            self.config.krate().as_str(),
            self.config.version().as_str(),
        );
        let requests = vec![cors_request(url)];
        assert(views(requests@) =~= Self::plan(self@));
        requests
    }

    fn run(&self, outcomes: &Vec<Outcome>) -> (result: TestResult) {
        expect_cors_header(NAME, &outcomes[0])
    }
}

} // verus!
