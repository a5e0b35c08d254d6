//! Encoded URLs with a + sign fail
//!
//! This module implements smoke tests for <https://github.com/rust-lang/crates.io/issues/4891>,
//! which reported an issue with the `+` character in URLs.

use std::sync::Arc;

use vstd::prelude::*;
use vstd::string::StringExecFns;

use crate::assertion::failed;
use crate::assertion::passed;
use crate::crates::utils::crate_address;
use crate::http_client::reason_phrase;
use crate::http_client::status_text;
use crate::http_client::three_digits;
use crate::http_client::Client;
use crate::http_client::ClientView;
use crate::http_client::Method;
use crate::http_client::ResponseView;
use crate::http_client::Status;
use crate::test::TestResult;
use crate::test::TestResultView;
use crate::text::join4;
use crate::text::occurs_in;
use crate::text::stands_at;
use crate::environment::Environment;
use crate::http_client::Outcome;
use crate::http_client::OutcomeView;
use crate::http_client::Request;
use crate::http_client::RequestView;
use crate::order::views;
use crate::test::test_group::nested_views;
use crate::test::Test;
use crate::test::TestGroup;
use crate::test::TestGroupResult;
use crate::test::TestGroupResultView;

pub use self::cloudfront_encoded::CloudfrontEncoded;
pub use self::cloudfront_space::CloudfrontSpace;
pub use self::cloudfront_unencoded::CloudfrontUnencoded;
pub use self::fastly_encoded::FastlyEncoded;
pub use self::fastly_space::FastlySpace;
pub use self::fastly_unencoded::FastlyUnencoded;
pub use self::config::Config;
pub use self::config::ConfigView;

pub mod cloudfront_encoded;
pub mod cloudfront_space;
pub mod cloudfront_unencoded;
pub mod config;
pub mod fastly_encoded;
pub mod fastly_space;
pub mod fastly_unencoded;

verus! {

/// The name of the test group
pub const NAME: &'static str = "rust-lang/crates.io#4891";

/// Encoded URLs with a + sign fail
///
/// An issue was reported where requests that encoded the `+` character in the URL would receive an
/// HTTP 403 Forbidden response. The cause for this issue was that the `+` character has a special
/// meaning in S3, which was not considered when uploading crates in the past. The smoke tests
/// ensure that the Content Delivery Networks correctly rewrite the URL to avoid this issue.
#[derive(Debug, PartialEq, Eq, PartialOrd, Ord, Hash)]
pub struct Crates4891 {
    /// Configuration for the test group
    config: Config,
}

impl View for Crates4891 {
    type V = ConfigView;

    closed spec fn view(&self) -> ConfigView {
        self.config@
    }
}

impl Crates4891 {
    /// Create a new instance of the test group
    pub fn new(env: Environment) -> (group: Self)
        ensures
            group@ == ConfigView::for_env(env),
    {
        Self { config: Config::for_env(env) }
    }

    /// The name of the test group
    pub fn to_string(&self) -> (name: String)
        ensures
            name@ == NAME@,
    {
        String::from_str(NAME)
    }
}

impl TestGroup for Crates4891 {
    open spec fn plan(config: ConfigView) -> Seq<Seq<RequestView>> {
        seq![
            CloudfrontEncoded::plan(config),
            CloudfrontUnencoded::plan(config),
            CloudfrontSpace::plan(config),
            FastlyEncoded::plan(config),
            FastlyUnencoded::plan(config),
            FastlySpace::plan(config),
        ]
    }

    open spec fn result(
        config: ConfigView,
        outcomes: Seq<Seq<OutcomeView>>,
    ) -> TestGroupResultView {
        TestGroupResultView {
            name: NAME@,
            results: seq![
                CloudfrontEncoded::result(config, outcomes[0]),
                CloudfrontUnencoded::result(config, outcomes[1]),
                CloudfrontSpace::result(config, outcomes[2]),
                FastlyEncoded::result(config, outcomes[3]),
                FastlyUnencoded::result(config, outcomes[4]),
                FastlySpace::result(config, outcomes[5]),
            ],
        }
    }

    fn requests(&self) -> (requests: Vec<Vec<Request>>) {
        let requests = vec![
            CloudfrontEncoded::new(&self.config).requests(),
            CloudfrontUnencoded::new(&self.config).requests(),
            CloudfrontSpace::new(Arc::new(self.config.clone())).requests(),
            FastlyEncoded::new(Arc::new(self.config.clone())).requests(),
            FastlyUnencoded::new(&self.config).requests(),
            FastlySpace::new(&self.config).requests(),
        ];
        assert(nested_views(requests@) =~= Self::plan(self@));
        requests
    }

    fn run(&self, outcomes: &Vec<Vec<Outcome>>) -> (result: TestGroupResult) {
        let ghost all = nested_views(outcomes@);
        assert(all[0] == views(outcomes@[0]@));
        assert(Self::plan(self@)[0] == CloudfrontEncoded::plan(self@));
        assert(all[1] == views(outcomes@[1]@));
        assert(Self::plan(self@)[1] == CloudfrontUnencoded::plan(self@));
        assert(all[2] == views(outcomes@[2]@));
        assert(Self::plan(self@)[2] == CloudfrontSpace::plan(self@));
        assert(all[3] == views(outcomes@[3]@));
        assert(Self::plan(self@)[3] == FastlyEncoded::plan(self@));
        assert(all[4] == views(outcomes@[4]@));
        assert(Self::plan(self@)[4] == FastlyUnencoded::plan(self@));
        assert(all[5] == views(outcomes@[5]@));
        assert(Self::plan(self@)[5] == FastlySpace::plan(self@));
        let results = vec![
            CloudfrontEncoded::new(&self.config).run(&outcomes[0]),
            CloudfrontUnencoded::new(&self.config).run(&outcomes[1]),
            CloudfrontSpace::new(Arc::new(self.config.clone())).run(&outcomes[2]),
            FastlyEncoded::new(Arc::new(self.config.clone())).run(&outcomes[3]),
            FastlyUnencoded::new(&self.config).run(&outcomes[4]),
            FastlySpace::new(&self.config).run(&outcomes[5]),
        ];
        assert(views(results@) =~= Self::result(self@, all).results);
        TestGroupResult::new(NAME, results)
    }
}

/// The URL of the crate on CloudFront, as it is written
pub open spec fn cloudfront_address(config: ConfigView) -> Seq<char> {
    crate_address(config.cloudfront_url, config.krate, config.version)
}

/// The URL of the crate on Fastly, as it is written
pub open spec fn fastly_address(config: ConfigView) -> Seq<char> {
    crate_address(config.fastly_url, config.krate, config.version)
}

/// The request for `url`
pub open spec fn status_plan(url: Seq<char>) -> RequestView {
    ClientView::plain().request(Method::Get, url)
}

/// What a test concludes that expects the status `expected`
///
/// If the request failed, the test fails with the error message. If the status of the response
/// is not the expected one, the test fails and names both.
pub open spec fn status_result(
    name: Seq<char>,
    expected: u16,
    outcome: OutcomeView,
) -> TestResultView {
    match outcome {
        OutcomeView::Failed(error) => failed(name, error),
        OutcomeView::Received(response) => if response.status == expected {
            passed(name)
        } else {
            failed(
                name,
                "Expected HTTP "@ + status_text(expected) + ", got HTTP "@ + status_text(
                    response.status,
                ),
            )
        },
    }
}

/// A test that expects another status than the one that came fails, and its message shows the
/// numbers of both.
pub proof fn lemma_status_mismatch_names_both(
    name: Seq<char>,
    expected: u16,
    response: ResponseView,
)
    requires
        response.status != expected,
    ensures
        !status_result(name, expected, OutcomeView::Received(response)).success,
        status_result(name, expected, OutcomeView::Received(response)).message matches Some(
            message,
        ) && occurs_in(three_digits(expected), message) && occurs_in(
            three_digits(response.status),
            message,
        ),
{
    let head = "Expected HTTP "@;
    let middle = reason_phrase(expected) + ", got HTTP "@;
    let tail = reason_phrase(response.status);
    let message = head + status_text(expected) + ", got HTTP "@ + status_text(response.status);
    let first = head.len() as int;
    let second = first + 3 + 1 + middle.len();
    assert(message.subrange(first, first + 3) =~= three_digits(expected));
    assert(stands_at(three_digits(expected), message, first));
    assert(message.subrange(second, second + 3) =~= three_digits(response.status));
    assert(stands_at(three_digits(response.status), message, second));
}

/// The request for `url`
pub fn status_request(url: String) -> (request: Request)
    ensures
        request@ == status_plan(url@),
{
    Client::new().get(url)
}

/// Expect the given status code
///
/// If the request failed, the test will fail with the error message. If the response status code
/// does not match the expected status code, the test will return an unsuccessful `TestResult`.
pub fn expect_status(name: &'static str, expected_status: Status, outcome: &Outcome) -> (result:
    TestResult)
    ensures
        result@ == status_result(name@, expected_status@, outcome@),
{
    let response = match outcome {
        Outcome::Failed(error) => {
            return TestResult::failed(name, error.clone());
        },
        Outcome::Received(response) => response,
    };

    if response.status.as_u16() == expected_status.as_u16() {
        TestResult::passed(name)
    } else {
        let expected = expected_status.to_string();
        let status = response.status.to_string();
        TestResult::failed(
            name,
            join4("Expected HTTP ", expected.as_str(), ", got HTTP ", status.as_str()),
        )
    }
}

} // verus!
