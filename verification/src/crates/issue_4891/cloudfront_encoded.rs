//! Test CloudFront with an encoded URL

use vstd::prelude::*;

use crate::assertion::expect_success;
use crate::assertion::success_result;
use crate::crates::issue_4891::address;
use crate::crates::utils::crate_url;
use crate::http_client::Client;
use crate::http_client::ClientView;
use crate::http_client::Method;
use crate::http_client::Outcome;
use crate::http_client::OutcomeView;
use crate::http_client::Request;
use crate::http_client::RequestView;
use crate::order::views;
use crate::test::Test;
use crate::test::TestResult;
use crate::test::TestResultView;
use crate::text::replace;
use crate::text::replaced;

use super::config::Config;
use super::config::ConfigView;

verus! {

/// The name of the test
pub const NAME: &'static str = "CloudFront encoded";

/// Test CloudFront with an encoded URL
///
/// This test requests a URL with an encoded `+` character from CloudFront. The test expects
/// the CDN to return a response with a status that says success.
pub struct CloudfrontEncoded<'a> {
    /// Configuration for this test
    config: &'a Config,
}

impl<'a> View for CloudfrontEncoded<'a> {
    type V = ConfigView;

    closed spec fn view(&self) -> ConfigView {
        self.config@
    }
}

impl<'a> CloudfrontEncoded<'a> {
    /// Create a new instance of the test
    pub fn new(config: &'a Config) -> (test: Self)
        ensures
            test@ == config@,
    {
        Self { config }
    }
}

impl<'a> Test for CloudfrontEncoded<'a> {
    open spec fn plan(config: ConfigView) -> Seq<RequestView> {
        seq![ClientView::plain().request(Method::Get, replaced(address(config), '+', "%2B"@))]
    }

    open spec fn result(config: ConfigView, outcomes: Seq<OutcomeView>) -> TestResultView {
        success_result(NAME@, "Expected HTTP 200 OK, got HTTP "@, outcomes[0])
    }

    fn requests(&self) -> (requests: Vec<Request>) {
        let config = self.config;
        let url = crate_url(config.cloudfront_url(), config.krate(), config.version());
        let url = replace(url.as_str(), '+', "%2B");
        let requests = vec![Client::new().get(url)];
        assert(views(requests@) =~= Self::plan(self@));
        requests
    }

    fn run(&self, outcomes: &Vec<Outcome>) -> (result: TestResult) {
        expect_success(NAME, "Expected HTTP 200 OK, got HTTP ", &outcomes[0])
    }
}

} // verus!
