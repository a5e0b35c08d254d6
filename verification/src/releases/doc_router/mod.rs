//! Routing of the documentation
//!
//! The documentation is served by a router that sends some paths elsewhere.

use std::sync::Arc;

use vstd::prelude::*;
use vstd::string::StringExecFns;

use crate::assertion::failed;
use crate::assertion::is_redirect;
use crate::assertion::passed;
use crate::assertion::redirects_to;
use crate::http_client::custom_http_client;
use crate::http_client::ClientView;
use crate::http_client::Method;
use crate::test::TestResult;
use crate::test::TestResultView;
use crate::text::join4;
use crate::environment::Environment;
use crate::http_client::Outcome;
use crate::http_client::OutcomeView;
use crate::http_client::Request;
use crate::http_client::RequestView;
use crate::order::views;
use crate::test::test_group::nested_views;
use crate::test::Test;
use crate::test::TestGroup;
use crate::test::TestGroupResult;
use crate::test::TestGroupResultView;

pub use self::config::Config;
pub use self::config::ConfigView;
pub use self::redirect_minor_versions::RedirectMinorVersions;
pub use self::redirect_root::RedirectRoot;

pub mod config;
pub mod redirect_minor_versions;
pub mod redirect_root;

verus! {

/// The name of the test group
pub const NAME: &'static str = "doc-router";

/// Routing of the documentation
///
/// The smoke tests ensure that the router of the documentation sends the redirects that readers
/// rely on.
#[derive(Debug, PartialEq, Eq, PartialOrd, Ord, Hash)]
pub struct DocRouter {
    /// Configuration for the test group
    config: Arc<Config>,
}

impl View for DocRouter {
    type V = ConfigView;

    closed spec fn view(&self) -> ConfigView {
        self.config@
    }
}

impl DocRouter {
    /// Create a new instance of the test group
    pub fn new(env: Environment) -> (group: Self)
        ensures
            group@ == ConfigView::for_env(env),
    {
        Self { config: Arc::new(Config::for_env(env)) }
    }

    /// The name of the test group
    pub fn to_string(&self) -> (name: String)
        ensures
            name@ == NAME@,
    {
        String::from_str(NAME)
    }
}

impl TestGroup for DocRouter {
    open spec fn plan(config: ConfigView) -> Seq<Seq<RequestView>> {
        seq![
            RedirectMinorVersions::plan(config),
            RedirectRoot::plan(config),
        ]
    }

    open spec fn result(
        config: ConfigView,
        outcomes: Seq<Seq<OutcomeView>>,
    ) -> TestGroupResultView {
        TestGroupResultView {
            name: NAME@,
            results: seq![
                RedirectMinorVersions::result(config, outcomes[0]),
                RedirectRoot::result(config, outcomes[1]),
            ],
        }
    }

    fn requests(&self) -> (requests: Vec<Vec<Request>>) {
        let requests = vec![
            RedirectMinorVersions::new(Arc::new(Config::clone(&self.config))).requests(),
            RedirectRoot::new(Arc::new(Config::clone(&self.config))).requests(),
        ];
        assert(nested_views(requests@) =~= Self::plan(self@));
        requests
    }

    fn run(&self, outcomes: &Vec<Vec<Outcome>>) -> (result: TestGroupResult) {
        let ghost all = nested_views(outcomes@);
        assert(all[0] == views(outcomes@[0]@));
        assert(Self::plan(self@)[0] == RedirectMinorVersions::plan(self@));
        assert(all[1] == views(outcomes@[1]@));
        assert(Self::plan(self@)[1] == RedirectRoot::plan(self@));
        let results = vec![
            RedirectMinorVersions::new(Arc::new(Config::clone(&self.config))).run(&outcomes[0]),
            RedirectRoot::new(Arc::new(Config::clone(&self.config))).run(&outcomes[1]),
        ];
        assert(views(results@) =~= Self::result(self@, all).results);
        TestGroupResult::new(NAME, results)
    }
}

/// The request for `url`, where a redirect is not followed
pub open spec fn redirect_plan(url: Seq<char>) -> RequestView {
    ClientView::custom().no_redirects().request(Method::Get, url)
}

/// The text of the `location` header as a message shows it
pub open spec fn shown_location(location: Option<Seq<char>>) -> Seq<char> {
    match location {
        Some(location) => location,
        None => "<empty location header>"@,
    }
}

/// What a test of a redirect concludes
///
/// If the request failed, the test fails with the error message. It fails if the response is
/// not a redirect to `expected_location`, and then names the location that the response gave.
pub open spec fn redirect_result(
    name: Seq<char>,
    expected_location: Seq<char>,
    outcome: OutcomeView,
) -> TestResultView {
    match outcome {
        OutcomeView::Failed(error) => failed(name, error),
        OutcomeView::Received(response) => if !(response.is_redirect() && response.redirects_to(
            expected_location,
        )) {
            failed(
                name,
                "Expected a redirect to "@ + expected_location + ", got "@ + shown_location(
                    response.header("location"@),
                ),
            )
        } else {
            passed(name)
        },
    }
}

/// The request for `url`, where a redirect is not followed
pub fn redirect_request(url: String) -> (request: Request)
    ensures
        request@ == redirect_plan(url@),
{
    // Don't follow the redirect, we want to check the redirect location
    custom_http_client().no_redirects().get(url)
}

/// Expect a redirect to `expected_location`
pub fn expect_redirect(name: &'static str, expected_location: &str, outcome: &Outcome) -> (result:
    TestResult)
    ensures
        result@ == redirect_result(name@, expected_location@, outcome@),
{
    let response = match outcome {
        Outcome::Failed(error) => {
            return TestResult::failed(name, error.clone());
        },
        Outcome::Received(response) => response,
    };

    if !(is_redirect(response) && redirects_to(response, expected_location)) {
        let message = match response.header("location") {
            Some(location) => join4(
                "Expected a redirect to ",
                expected_location,
                ", got ",
                location.as_str(),
            ),
            None => join4(
                "Expected a redirect to ",
                expected_location,
                ", got ",
                "<empty location header>",
            ),
        };
        return TestResult::failed(name, message);
    }
    TestResult::passed(name)
}

} // verus!
