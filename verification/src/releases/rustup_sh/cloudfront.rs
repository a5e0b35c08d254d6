//! Test that CloudFront redirects rustup.sh

use std::sync::Arc;

use vstd::prelude::*;

use crate::http_client::Outcome;
use crate::http_client::OutcomeView;
use crate::http_client::Request;
use crate::http_client::RequestView;
use crate::order::views;
use crate::releases::rustup_sh::expect_redirect;
use crate::releases::rustup_sh::redirect_result;
use crate::releases::rustup_sh::rustup_plan;
use crate::releases::rustup_sh::rustup_request;
use crate::test::Test;
use crate::test::TestResult;
use crate::test::TestResultView;

use super::config::Config;
use super::config::ConfigView;

verus! {

/// The name of the test
pub const NAME: &'static str = "CloudFront";

/// Test that CloudFront redirects rustup.sh
///
/// This test asks CloudFront for the old installer script. It expects a redirect to
/// sh.rustup.rs, with a body that links there.
pub struct CloudFront {
    /// Configuration for this test
    config: Arc<Config>,
}

impl View for CloudFront {
    type V = ConfigView;

    closed spec fn view(&self) -> ConfigView {
        self.config@
    }
}

impl CloudFront {
    /// Create a new instance of the test
    pub fn new(config: Arc<Config>) -> (test: Self)
        ensures
            test@ == config@,
    {
        Self { config }
    }
}

impl Test for CloudFront {
    open spec fn plan(config: ConfigView) -> Seq<RequestView> {
        seq![rustup_plan(config.cloudfront_url)]
    }

    open spec fn result(config: ConfigView, outcomes: Seq<OutcomeView>) -> TestResultView {
        redirect_result(NAME@, outcomes[0])
    }

    fn requests(&self) -> (requests: Vec<Request>) {
        let requests = vec![rustup_request(self.config.cloudfront_url().as_str())];
        assert(views(requests@) =~= Self::plan(self@));
        requests
    }

    fn run(&self, outcomes: &Vec<Outcome>) -> (result: TestResult) {
        expect_redirect(NAME, &outcomes[0])
    }
}

} // verus!
