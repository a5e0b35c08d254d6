//! Test that the API of crates.io answers

use std::sync::Arc;

use vstd::prelude::*;

use crate::assertion::expect_success;
use crate::assertion::success_result;
use crate::http_client::ClientView;
use crate::http_client::Method;
use crate::http_client::Outcome;
use crate::http_client::OutcomeView;
use crate::http_client::Request;
use crate::http_client::RequestView;
use crate::http_client::custom_http_client;
use crate::order::views;
use crate::test::Test;
use crate::test::TestResult;
use crate::test::TestResultView;

use super::config::Config;
use super::config::ConfigView;

verus! {

/// The name of the test
pub const NAME: &'static str = "crates.io API";

/// Test that the API of crates.io answers
///
/// This test requests the summary of crates.io, which stands for the health of the API. It
/// expects a response with a status that says success.
pub struct ApiHealth {
    /// Configuration for this test
    config: Arc<Config>,
}

impl View for ApiHealth {
    type V = ConfigView;

    closed spec fn view(&self) -> ConfigView {
        self.config@
    }
}

impl ApiHealth {
    /// Create a new instance of the test
    pub fn new(config: Arc<Config>) -> (test: Self)
        ensures
            test@ == config@,
    {
        Self { config }
    }
}

impl Test for ApiHealth {
    open spec fn plan(config: ConfigView) -> Seq<RequestView> {
        seq![ClientView::custom().request(Method::Get, config.api_url)]
    }

    open spec fn result(config: ConfigView, outcomes: Seq<OutcomeView>) -> TestResultView {
        success_result(NAME@, "Expected HTTP 200, got HTTP "@, outcomes[0])
    }

    fn requests(&self) -> (requests: Vec<Request>) {
        let requests = vec![custom_http_client().get(self.config.api_url().clone())];
        assert(views(requests@) =~= Self::plan(self@));
        requests
    }

    fn run(&self, outcomes: &Vec<Outcome>) -> (result: TestResult) {
        expect_success(NAME, "Expected HTTP 200, got HTTP ", &outcomes[0])
    }
}

} // verus!
