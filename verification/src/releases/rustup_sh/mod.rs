//! rustup.sh
//!
//! The installer script of rustup was once served from the release archives. The archives now
//! redirect to sh.rustup.rs.

use std::sync::Arc;

use vstd::prelude::*;
use vstd::string::StringExecFns;

use crate::assertion::failed;
use crate::assertion::is_redirect;
use crate::assertion::passed;
use crate::assertion::redirects_to;
use crate::http_client::custom_http_client;
use crate::http_client::ClientView;
use crate::http_client::Method;
use crate::test::TestResult;
use crate::test::TestResultView;
use crate::text::contains;
use crate::text::join2;
use crate::text::join4;
use crate::text::occurs_in;
use crate::environment::Environment;
use crate::http_client::Outcome;
use crate::http_client::OutcomeView;
use crate::http_client::Request;
use crate::http_client::RequestView;
use crate::order::views;
use crate::test::test_group::nested_views;
use crate::test::Test;
use crate::test::TestGroup;
use crate::test::TestGroupResult;
use crate::test::TestGroupResultView;

pub use self::cloudfront::CloudFront;
pub use self::config::Config;
pub use self::config::ConfigView;
pub use self::fastly::Fastly;

pub mod cloudfront;
pub mod config;
pub mod fastly;

verus! {

/// The name of the test group
pub const NAME: &'static str = "rustup.sh";

/// Where the installer script lives now
pub const EXPECTED_LOCATION: &'static str = "https://sh.rustup.rs";

/// rustup.sh
///
/// Requests for the old installer script are redirected to sh.rustup.rs. The smoke tests ensure
/// that both Content Delivery Networks send the redirect.
#[derive(Debug, PartialEq, Eq, PartialOrd, Ord, Hash)]
pub struct RustupSh {
    /// Configuration for the test group
    config: Config,
}

impl View for RustupSh {
    type V = ConfigView;

    closed spec fn view(&self) -> ConfigView {
        self.config@
    }
}

impl RustupSh {
    /// Create a new instance of the test group
    pub fn new(env: Environment) -> (group: Self)
        ensures
            group@ == ConfigView::for_env(env),
    {
        Self { config: Config::for_env(env) }
    }

    /// The name of the test group
    pub fn to_string(&self) -> (name: String)
        ensures
            name@ == NAME@,
    {
        String::from_str(NAME)
    }
}

impl TestGroup for RustupSh {
    open spec fn plan(config: ConfigView) -> Seq<Seq<RequestView>> {
        seq![
            CloudFront::plan(config),
            Fastly::plan(config),
        ]
    }

    open spec fn result(
        config: ConfigView,
        outcomes: Seq<Seq<OutcomeView>>,
    ) -> TestGroupResultView {
        TestGroupResultView {
            name: NAME@,
            results: seq![
                CloudFront::result(config, outcomes[0]),
                Fastly::result(config, outcomes[1]),
            ],
        }
    }

    fn requests(&self) -> (requests: Vec<Vec<Request>>) {
        let requests = vec![
            CloudFront::new(Arc::new(self.config.clone())).requests(),
            Fastly::new(&self.config).requests(),
        ];
        assert(nested_views(requests@) =~= Self::plan(self@));
        requests
    }

    fn run(&self, outcomes: &Vec<Vec<Outcome>>) -> (result: TestGroupResult) {
        let ghost all = nested_views(outcomes@);
        assert(all[0] == views(outcomes@[0]@));
        assert(Self::plan(self@)[0] == CloudFront::plan(self@));
        assert(all[1] == views(outcomes@[1]@));
        assert(Self::plan(self@)[1] == Fastly::plan(self@));
        let results = vec![
            CloudFront::new(Arc::new(self.config.clone())).run(&outcomes[0]),
            Fastly::new(&self.config).run(&outcomes[1]),
        ];
        assert(views(results@) =~= Self::result(self@, all).results);
        TestGroupResult::new(NAME, results)
    }
}

/// The request for the installer script below `base_url`: redirects are not followed, and the
/// body is read
pub open spec fn rustup_plan(base_url: Seq<char>) -> RequestView {
    ClientView::custom().no_redirects().request(
        Method::Get,
        base_url + "/rustup.sh"@,
    ).with_body()
}

/// What a test of the installer script concludes
///
/// If the request failed, the test fails with the error message. It fails if the response is
/// not a redirect to sh.rustup.rs, and then names the address that answered. If the body could
/// not be read, it fails with that error message, and if the body does not link to
/// sh.rustup.rs, it fails as well.
pub open spec fn redirect_result(name: Seq<char>, outcome: OutcomeView) -> TestResultView {
    match outcome {
        OutcomeView::Failed(error) => failed(name, error),
        OutcomeView::Received(response) => if !(response.is_redirect() && response.redirects_to(
            EXPECTED_LOCATION@,
        )) {
            failed(
                name,
                "Expected a redirect to "@ + EXPECTED_LOCATION@ + ", got "@ + response.url,
            )
        } else {
            match response.body {
                Err(error) => failed(name, error),
                Ok(body) => if !occurs_in("https://sh.rustup.rs"@, body) {
                    failed(name, "Expected body to link to sh.rustup.rs"@)
                } else {
                    passed(name)
                },
            }
        },
    }
}

/// The request for the installer script below `base_url`
pub fn rustup_request(base_url: &str) -> (request: Request)
    ensures
        request@ == rustup_plan(base_url@),
{
    // Don't follow the redirect, we want to check the redirect location
    custom_http_client().no_redirects().get(join2(base_url, "/rustup.sh")).with_body()
}

/// Expect a redirect to sh.rustup.rs, with a body that links there
pub fn expect_redirect(name: &'static str, outcome: &Outcome) -> (result: TestResult)
    ensures
        result@ == redirect_result(name@, outcome@),
{
    let response = match outcome {
        Outcome::Failed(error) => {
            return TestResult::failed(name, error.clone());
        },
        Outcome::Received(response) => response,
    };

    if !(is_redirect(response) && redirects_to(response, EXPECTED_LOCATION)) {
        return TestResult::failed(
            name,
            join4("Expected a redirect to ", EXPECTED_LOCATION, ", got ", response.url.as_str()),
        );
    }
    let body = match &response.body {
        Ok(body) => body,
        Err(error) => {
            return TestResult::failed(name, error.clone());
        },
    };

    if !contains(body.as_str(), "https://sh.rustup.rs") {
        return TestResult::failed(name, String::from_str("Expected body to link to sh.rustup.rs"));
    }
    TestResult::passed(name)
}

} // verus!
