//! Test CloudFront with an un-encoded URL

use vstd::pervasive::unreached;
use vstd::prelude::*;

use crate::assertion::expect_success;
use crate::assertion::success_result;
use crate::crates::issue_4891::address;
use crate::crates::utils::crate_url;
use crate::http_client::parse_url;
use crate::http_client::parsed_url;
use crate::http_client::Client;
use crate::http_client::ClientView;
use crate::http_client::Method;
use crate::http_client::Outcome;
use crate::http_client::OutcomeView;
use crate::http_client::Request;
use crate::http_client::RequestView;
use crate::order::views;
use crate::test::Test;
use crate::test::TestResult;
use crate::test::TestResultView;

use super::config::Config;
use super::config::ConfigView;

verus! {

/// The name of the test
pub const NAME: &'static str = "CloudFront unencoded";

/// Test CloudFront with an un-encoded URL
///
/// This test requests a URL with an un-encoded `+` character from CloudFront. The test expects
/// the CDN to return a response with a status that says success.
///
/// The URL of the crate is parsed before it is requested. A test exists only for a
/// configuration whose URL is an address.
pub struct CloudfrontUnencoded<'a> {
    /// Configuration for this test
    config: &'a Config,
}

impl<'a> View for CloudfrontUnencoded<'a> {
    type V = ConfigView;

    closed spec fn view(&self) -> ConfigView {
        self.config@
    }
}

impl<'a> CloudfrontUnencoded<'a> {
    #[verifier::type_invariant]
    spec fn has_address(self) -> bool {
        parsed_url(address(self.config@)) is Some
    }

    /// Create a new instance of the test for a configuration whose URL is an address
    pub fn new(config: &'a Config) -> (test: Self)
        requires
            parsed_url(address(config@)) is Some,
        ensures
            test@ == config@,
    {
        Self { config }
    }

    /// Create a new instance of the test, where the URL of the crate is an address
    pub fn try_new(config: &'a Config) -> (test: Option<Self>)
        ensures
            test is Some <==> parsed_url(address(config@)) is Some,
            test matches Some(t) ==> t@ == config@,
    {
        let url = crate_url(config.cloudfront_url(), config.krate(), config.version());
        match parse_url(url.as_str()) {
            Some(_) => Some(Self::new(config)),
            None => None,
        }
    }
}

impl<'a> Test for CloudfrontUnencoded<'a> {
    open spec fn plan(config: ConfigView) -> Seq<RequestView> {
        match parsed_url(address(config)) {
            Some(url) => seq![ClientView::plain().request(Method::Get, url)],
            None => Seq::empty(),
        }
    }

    open spec fn result(config: ConfigView, outcomes: Seq<OutcomeView>) -> TestResultView {
        success_result(NAME@, "Expected HTTP 200 OK, got HTTP "@, outcomes[0])
    }

    fn requests(&self) -> (requests: Vec<Request>) {
        proof {
            use_type_invariant(self);
        }
        let config = self.config;
        let url = crate_url(config.cloudfront_url(), config.krate(), config.version());
        let url = match parse_url(url.as_str()) {
            Some(url) => url,
            None => unreached(),
        };
        let requests = vec![Client::new().get(url)];
        assert(views(requests@) =~= Self::plan(self@));
        requests
    }

    fn run(&self, outcomes: &Vec<Outcome>) -> (result: TestResult) {
        proof {
            use_type_invariant(self);
        }
        expect_success(NAME, "Expected HTTP 200 OK, got HTTP ", &outcomes[0])
    }
}

} // verus!
