//! Encoded URLs with a + sign fail on CloudFront
//!
//! This module implements the first smoke tests for
//! <https://github.com/rust-lang/crates.io/issues/4891>, which look at CloudFront alone.

use vstd::prelude::*;
use vstd::string::StringExecFns;

use crate::assertion::failed;
use crate::assertion::passed;
use crate::crates::utils::crate_address;
use crate::crates::utils::crate_url;
use crate::http_client::parse_url;
use crate::http_client::parsed_url;
use crate::http_client::status_text;
use crate::test::TestResult;
use crate::test::TestResultView;
use crate::text::join2;
use crate::environment::Environment;
use crate::http_client::Outcome;
use crate::http_client::OutcomeView;
use crate::http_client::Request;
use crate::http_client::RequestView;
use crate::order::views;
use crate::test::test_group::nested_views;
use crate::test::Test;
use crate::test::TestGroup;
use crate::test::TestGroupResult;
use crate::test::TestGroupResultView;

pub use self::cloudfront_encoded::CloudfrontEncoded;
pub use self::cloudfront_space::CloudfrontSpace;
pub use self::cloudfront_unencoded::CloudfrontUnencoded;
pub use self::config::Config;
pub use self::config::ConfigView;

pub mod cloudfront_encoded;
pub mod cloudfront_space;
pub mod cloudfront_unencoded;
pub mod config;

verus! {

/// The name of the test group
pub const NAME: &'static str = "rust-lang/crates.io#4891";

/// The URL of the crate on CloudFront, as it is written
pub open spec fn address(config: ConfigView) -> Seq<char> {
    crate_address(config.cloudfront_url, config.krate, config.version)
}

/// Encoded URLs with a + sign fail
///
/// An issue was reported where requests that encoded the `+` character in the URL would receive an
/// HTTP 403 Forbidden response. The cause for this issue was that the `+` character has a special
/// meaning in S3, which was not considered when uploading crates in the past. The smoke tests
/// ensure that the Content Delivery Networks correctly rewrite the URL to avoid this issue.
///
/// One of the tests parses the URL of the crate. A group exists only for a configuration whose
/// URL is an address.
#[derive(Debug, PartialEq, Eq, PartialOrd, Ord, Hash)]
pub struct Issue4891 {
    /// Configuration for the test group
    config: Config,
}

impl View for Issue4891 {
    type V = ConfigView;

    closed spec fn view(&self) -> ConfigView {
        self.config@
    }
}

impl Issue4891 {
    #[verifier::type_invariant]
    spec fn has_address(self) -> bool {
        parsed_url(address(self.config@)) is Some
    }

    /// Create a new instance of the test group for an environment whose URL is an address
    pub fn new(env: Environment) -> (group: Self)
        requires
            parsed_url(address(ConfigView::for_env(env))) is Some,
        ensures
            group@ == ConfigView::for_env(env),
    {
        Self { config: Config::for_env(env) }
    }

    /// Create a new instance of the test group, where the URL of the crate is an address
    pub fn try_new(env: Environment) -> (group: Option<Self>)
        ensures
            group is Some <==> parsed_url(address(ConfigView::for_env(env))) is Some,
            group matches Some(g) ==> g@ == ConfigView::for_env(env),
    {
        let config = Config::for_env(env);
        let url = crate_url(config.cloudfront_url(), config.krate(), config.version());
        match parse_url(url.as_str()) {
            Some(_) => Some(Self::new(env)),
            None => None,
        }
    }

    /// The name of the test group
    pub fn to_string(&self) -> (name: String)
        ensures
            name@ == NAME@,
    {
        String::from_str(NAME)
    }
}

impl TestGroup for Issue4891 {
    open spec fn plan(config: ConfigView) -> Seq<Seq<RequestView>> {
        seq![
            CloudfrontEncoded::plan(config),
            CloudfrontUnencoded::plan(config),
            CloudfrontSpace::plan(config),
        ]
    }

    open spec fn result(
        config: ConfigView,
        outcomes: Seq<Seq<OutcomeView>>,
    ) -> TestGroupResultView {
        TestGroupResultView {
            name: NAME@,
            results: seq![
                CloudfrontEncoded::result(config, outcomes[0]),
                CloudfrontUnencoded::result(config, outcomes[1]),
                CloudfrontSpace::result(config, outcomes[2]),
            ],
        }
    }

    fn requests(&self) -> (requests: Vec<Vec<Request>>) {
        proof {
            use_type_invariant(self);
        }
        let requests = vec![
            CloudfrontEncoded::new(&self.config).requests(),
            CloudfrontUnencoded::new(&self.config).requests(),
            CloudfrontSpace::new(&self.config).requests(),
        ];
        assert(nested_views(requests@) =~= Self::plan(self@));
        requests
    }

    fn run(&self, outcomes: &Vec<Vec<Outcome>>) -> (result: TestGroupResult) {
        proof {
            use_type_invariant(self);
        }
        let ghost all = nested_views(outcomes@);
        assert(all[0] == views(outcomes@[0]@) && Self::plan(self@)[0] == CloudfrontEncoded::plan(
            self@,
        ));
        assert(all[1] == views(outcomes@[1]@) && Self::plan(self@)[1]
            == CloudfrontUnencoded::plan(self@));
        assert(all[2] == views(outcomes@[2]@) && Self::plan(self@)[2] == CloudfrontSpace::plan(
            self@,
        ));
        let results = vec![
            CloudfrontEncoded::new(&self.config).run(&outcomes[0]),
            CloudfrontUnencoded::new(&self.config).run(&outcomes[1]),
            CloudfrontSpace::new(&self.config).run(&outcomes[2]),
        ];
        assert(views(results@) =~= Self::result(self@, all).results);
        TestGroupResult::new(NAME, results)
    }
}

/// What a test concludes that expects the request to be refused
///
/// If the request failed, the test fails with the error message. If the status of the response
/// is not 403, the test fails and names the status that came.
pub open spec fn forbidden_result(name: Seq<char>, outcome: OutcomeView) -> TestResultView {
    match outcome {
        OutcomeView::Failed(error) => failed(name, error),
        OutcomeView::Received(response) => if response.status == 403 {
            passed(name)
        } else {
            failed(name, "Expected HTTP 403 Forbidden, got HTTP "@ + status_text(response.status))
        },
    }
}

/// Expect the status 403 Forbidden
pub fn expect_forbidden(name: &'static str, outcome: &Outcome) -> (result: TestResult)
    ensures
        result@ == forbidden_result(name@, outcome@),
{
    match outcome {
        Outcome::Failed(error) => TestResult::failed(name, error.clone()),
        Outcome::Received(response) => {
            if response.status.as_u16() == 403 {
                TestResult::passed(name)
            } else {
                let status = response.status.to_string();
                TestResult::failed(
                    name,
                    join2("Expected HTTP 403 Forbidden, got HTTP ", status.as_str()),
                )
            }
        },
    }
}

} // verus!
