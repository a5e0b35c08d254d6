//! CORS headers
//!
//! This module implements smoke tests for <https://github.com/rust-lang/crates.io/issues/6164>,
//! which reported an issue with the CORS headers of the Content Delivery Networks.

use std::sync::Arc;

use vstd::prelude::*;
use vstd::string::StringExecFns;

use crate::assertion::failed;
use crate::assertion::passed;
use crate::http_client::Client;
use crate::http_client::ClientView;
use crate::http_client::Method;
use crate::test::TestResult;
use crate::test::TestResultView;
use crate::text::same_text;
use crate::environment::Environment;
use crate::http_client::Outcome;
use crate::http_client::OutcomeView;
use crate::http_client::Request;
use crate::http_client::RequestView;
use crate::order::views;
use crate::test::test_group::nested_views;
use crate::test::Test;
use crate::test::TestGroup;
use crate::test::TestGroupResult;
use crate::test::TestGroupResultView;

pub use self::cloudfront::CloudFront;
pub use self::config::Config;
pub use self::config::ConfigView;
pub use self::fastly::Fastly;

pub mod cloudfront;
pub mod config;
pub mod fastly;

verus! {

/// The name of the test group
pub const NAME: &'static str = "rust-lang/crates.io#6164 - CORS headers";

/// CORS headers
///
/// An issue was reported where the Content Delivery Networks would not set the CORS headers
/// that browsers need to download crates from another origin. The smoke tests ensure that the
/// headers are set.
#[derive(Debug, PartialEq, Eq, PartialOrd, Ord, Hash)]
pub struct Crates6164 {
    /// Configuration for the test group
    config: Config,
}

impl View for Crates6164 {
    type V = ConfigView;

    closed spec fn view(&self) -> ConfigView {
        self.config@
    }
}

impl Crates6164 {
    /// Create a new instance of the test group
    pub fn new(env: Environment) -> (group: Self)
        ensures
            group@ == ConfigView::for_env(env),
    {
        Self { config: Config::for_env(env) }
    }

    /// The name of the test group
    pub fn to_string(&self) -> (name: String)
        ensures
            name@ == NAME@,
    {
        String::from_str(NAME)
    }
}

impl TestGroup for Crates6164 {
    open spec fn plan(config: ConfigView) -> Seq<Seq<RequestView>> {
        seq![
            CloudFront::plan(config),
            Fastly::plan(config),
        ]
    }

    open spec fn result(
        config: ConfigView,
        outcomes: Seq<Seq<OutcomeView>>,
    ) -> TestGroupResultView {
        TestGroupResultView {
            name: NAME@,
            results: seq![
                CloudFront::result(config, outcomes[0]),
                Fastly::result(config, outcomes[1]),
            ],
        }
    }

    fn requests(&self) -> (requests: Vec<Vec<Request>>) {
        let requests = vec![
            CloudFront::new(Arc::new(self.config.clone())).requests(),
            Fastly::new(Arc::new(self.config.clone())).requests(),
        ];
        assert(nested_views(requests@) =~= Self::plan(self@));
        requests
    }

    fn run(&self, outcomes: &Vec<Vec<Outcome>>) -> (result: TestGroupResult) {
        let ghost all = nested_views(outcomes@);
        assert(all[0] == views(outcomes@[0]@));
        assert(Self::plan(self@)[0] == CloudFront::plan(self@));
        assert(all[1] == views(outcomes@[1]@));
        assert(Self::plan(self@)[1] == Fastly::plan(self@));
        let results = vec![
            CloudFront::new(Arc::new(self.config.clone())).run(&outcomes[0]),
            Fastly::new(Arc::new(self.config.clone())).run(&outcomes[1]),
        ];
        assert(views(results@) =~= Self::result(self@, all).results);
        TestGroupResult::new(NAME, results)
    }
}

/// The request for `url` on behalf of another origin
pub open spec fn cors_plan(url: Seq<char>) -> RequestView {
    ClientView::plain().default_header("origin"@, "https://example.com"@).request(Method::Get, url)
}

/// What a test of the CORS headers concludes
///
/// If the request failed, the test fails with the error message. It fails as well unless the
/// `Access-Control-Allow-Origin` header of the response is `*`.
pub open spec fn cors_result(name: Seq<char>, outcome: OutcomeView) -> TestResultView {
    match outcome {
        OutcomeView::Failed(error) => failed(name, error),
        OutcomeView::Received(response) => if response.header("access-control-allow-origin"@)
            == Some("*"@) {
            passed(name)
        } else {
            failed(name, "Expected the Access-Control-Allow-Origin header to be set to '*'"@)
        },
    }
}

/// The request for `url` on behalf of another origin
pub fn cors_request(url: String) -> (request: Request)
    ensures
        request@ == cors_plan(url@),
{
    Client::new().default_header("origin", "https://example.com").get(url)
}

/// Expect the CORS header that allows any origin
pub fn expect_cors_header(name: &'static str, outcome: &Outcome) -> (result: TestResult)
    ensures
        result@ == cors_result(name@, outcome@),
{
    let response = match outcome {
        Outcome::Failed(error) => {
            return TestResult::failed(name, error.clone());
        },
        Outcome::Received(response) => response,
    };

    let allows_any_origin = match response.header("access-control-allow-origin") {
        Some(header) => same_text(header.as_str(), "*"),
        None => false,
    };
    if allows_any_origin {
        TestResult::passed(name)
    } else {
        TestResult::failed(
            name,
            String::from_str("Expected the Access-Control-Allow-Origin header to be set to '*'"),
        )
    }
}

} // verus!
