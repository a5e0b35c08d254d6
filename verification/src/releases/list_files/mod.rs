//! List the files of a release
//!
//! The releases of Rust are served with an index page that lists the files of each release. The
//! page loads the list when it is opened.

use std::sync::Arc;

use vstd::prelude::*;
use vstd::string::StringExecFns;

use crate::assertion::failed;
use crate::assertion::passed;
use crate::http_client::Client;
use crate::http_client::ClientView;
use crate::http_client::Method;
use crate::test::TestResult;
use crate::test::TestResultView;
use crate::text::contains;
use crate::text::join4;
use crate::text::occurs_in;
use crate::environment::Environment;
use crate::http_client::Outcome;
use crate::http_client::OutcomeView;
use crate::http_client::Request;
use crate::http_client::RequestView;
use crate::order::views;
use crate::test::test_group::nested_views;
use crate::test::Test;
use crate::test::TestGroup;
use crate::test::TestGroupResult;
use crate::test::TestGroupResultView;

pub use self::cloudfront::CloudFront;
pub use self::config::Config;
pub use self::config::ConfigView;
pub use self::fastly::Fastly;

pub mod cloudfront;
pub mod config;
pub mod fastly;

verus! {

/// The name of the test group
pub const NAME: &'static str = "list-files.html";

/// List the files of a release
///
/// Each release has an index page that lists its files. The smoke tests ensure that both Content
/// Delivery Networks serve the page.
#[derive(Debug, PartialEq, Eq, PartialOrd, Ord, Hash)]
pub struct ListFiles {
    /// Configuration for the test group
    config: Config,
}

impl View for ListFiles {
    type V = ConfigView;

    closed spec fn view(&self) -> ConfigView {
        self.config@
    }
}

impl ListFiles {
    /// Create a new instance of the test group
    pub fn new(env: Environment) -> (group: Self)
        ensures
            group@ == ConfigView::for_env(env),
    {
        Self { config: Config::for_env(env) }
    }

    /// The name of the test group
    pub fn to_string(&self) -> (name: String)
        ensures
            name@ == NAME@,
    {
        String::from_str(NAME)
    }
}

impl TestGroup for ListFiles {
    open spec fn plan(config: ConfigView) -> Seq<Seq<RequestView>> {
        seq![
            CloudFront::plan(config),
            Fastly::plan(config),
        ]
    }

    open spec fn result(
        config: ConfigView,
        outcomes: Seq<Seq<OutcomeView>>,
    ) -> TestGroupResultView {
        TestGroupResultView {
            name: NAME@,
            results: seq![
                CloudFront::result(config, outcomes[0]),
                Fastly::result(config, outcomes[1]),
            ],
        }
    }

    fn requests(&self) -> (requests: Vec<Vec<Request>>) {
        let requests = vec![
            CloudFront::new(Arc::new(self.config.clone())).requests(),
            Fastly::new(Arc::new(self.config.clone())).requests(),
        ];
        assert(nested_views(requests@) =~= Self::plan(self@));
        requests
    }

    fn run(&self, outcomes: &Vec<Vec<Outcome>>) -> (result: TestGroupResult) {
        let ghost all = nested_views(outcomes@);
        assert(all[0] == views(outcomes@[0]@));
        assert(Self::plan(self@)[0] == CloudFront::plan(self@));
        assert(all[1] == views(outcomes@[1]@));
        assert(Self::plan(self@)[1] == Fastly::plan(self@));
        let results = vec![
            CloudFront::new(Arc::new(self.config.clone())).run(&outcomes[0]),
            Fastly::new(Arc::new(self.config.clone())).run(&outcomes[1]),
        ];
        assert(views(results@) =~= Self::result(self@, all).results);
        TestGroupResult::new(NAME, results)
    }
}

/// The request for the index of `release` below `base_url`, body included
pub open spec fn index_plan(base_url: Seq<char>, release: Seq<char>) -> RequestView {
    ClientView::plain().request(
        Method::Get,
        base_url + "/dist/"@ + release + "/index.html"@,
    ).with_body()
}

/// What a test of an index page concludes
///
/// If the request failed or the body could not be read, the test fails with the error message.
/// It fails as well if the body does not say that it loads the contents of the directory.
pub open spec fn loading_result(name: Seq<char>, outcome: OutcomeView) -> TestResultView {
    match outcome {
        OutcomeView::Failed(error) => failed(name, error),
        OutcomeView::Received(response) => match response.body {
            Err(error) => failed(name, error),
            Ok(body) => if !occurs_in("Loading directory contents..."@, body) {
                failed(name, "Expected body to load directory contents"@)
            } else {
                passed(name)
            },
        },
    }
}

/// The request for the index of `release` below `base_url`, body included
pub fn index_request(base_url: &str, release: &str) -> (request: Request)
    ensures
        request@ == index_plan(base_url@, release@),
{
    Client::new().get(join4(base_url, "/dist/", release, "/index.html")).with_body()
}

/// Expect the index page that loads the contents of the directory
pub fn expect_loading_files(name: &'static str, outcome: &Outcome) -> (result: TestResult)
    ensures
        result@ == loading_result(name@, outcome@),
{
    let response = match outcome {
        Outcome::Failed(error) => {
            return TestResult::failed(name, error.clone());
        },
        Outcome::Received(response) => response,
    };

    let body = match &response.body {
        Ok(body) => body,
        Err(error) => {
            return TestResult::failed(name, error.clone());
        },
    };

    if !contains(body.as_str(), "Loading directory contents...") {
        return TestResult::failed(
            name,
            String::from_str("Expected body to load directory contents"),
        );
    }
    TestResult::passed(name)
}

} // verus!
