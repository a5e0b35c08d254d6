//! Test CloudFront with a URL including a space character

use vstd::prelude::*;

use crate::crates::issue_4891::address;
use crate::crates::issue_4891::expect_forbidden;
use crate::crates::issue_4891::forbidden_result;
use crate::crates::utils::crate_url;
use crate::http_client::Client;
use crate::http_client::ClientView;
use crate::http_client::Method;
use crate::http_client::Outcome;
use crate::http_client::OutcomeView;
use crate::http_client::Request;
use crate::http_client::RequestView;
use crate::order::views;
use crate::test::Test;
use crate::test::TestResult;
use crate::test::TestResultView;
use crate::text::replace;
use crate::text::replaced;

use super::config::Config;
use super::config::ConfigView;

verus! {

/// The name of the test
pub const NAME: &'static str = "CloudFront with space";

/// Test CloudFront with a URL including a space character
///
/// This test requests a URL with a space character from CloudFront. The test expects the CDN
/// to return an HTTP 403 Forbidden response.
pub struct CloudfrontSpace<'a> {
    /// Configuration for this test
    config: &'a Config,
}

impl<'a> View for CloudfrontSpace<'a> {
    type V = ConfigView;

    closed spec fn view(&self) -> ConfigView {
        self.config@
    }
}

impl<'a> CloudfrontSpace<'a> {
    /// Create a new instance of the test
    pub fn new(config: &'a Config) -> (test: Self)
        ensures
            test@ == config@,
    {
        Self { config }
    }
}

impl<'a> Test for CloudfrontSpace<'a> {
    open spec fn plan(config: ConfigView) -> Seq<RequestView> {
        seq![ClientView::plain().request(Method::Get, replaced(address(config), '+', " "@))]
    }

    open spec fn result(config: ConfigView, outcomes: Seq<OutcomeView>) -> TestResultView {
        forbidden_result(NAME@, outcomes[0])
    }

    fn requests(&self) -> (requests: Vec<Request>) {
        let config = self.config;
        let url = crate_url(config.cloudfront_url(), config.krate(), config.version());
        let url = replace(url.as_str(), '+', " ");
        let requests = vec![Client::new().get(url)];
        assert(views(requests@) =~= Self::plan(self@));
        requests
    }

    fn run(&self, outcomes: &Vec<Outcome>) -> (result: TestResult) {
        expect_forbidden(NAME, &outcomes[0])
    }
}

} // verus!
