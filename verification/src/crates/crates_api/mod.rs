//! Smoke tests for the API of crates.io

use std::sync::Arc;

use vstd::prelude::*;
use vstd::string::StringExecFns;

use crate::environment::Environment;
use crate::http_client::Outcome;
use crate::http_client::OutcomeView;
use crate::http_client::Request;
use crate::http_client::RequestView;
use crate::order::views;
use crate::test::test_group::nested_views;
use crate::test::Test;
use crate::test::TestGroup;
use crate::test::TestGroupResult;
use crate::test::TestGroupResultView;

pub use self::api_health::ApiHealth;
pub use self::config::Config;
pub use self::config::ConfigView;

pub mod api_health;
pub mod config;

verus! {

/// The name of the test group
pub const NAME: &'static str = "crates.io API";

/// Smoke tests for the API of crates.io
///
/// The smoke tests ensure that the API of crates.io answers.
#[derive(Debug, PartialEq, Eq, PartialOrd, Ord, Hash)]
pub struct CratesApi {
    /// Configuration for the test group
    config: Arc<Config>,
}

impl View for CratesApi {
    type V = ConfigView;

    closed spec fn view(&self) -> ConfigView {
        self.config@
    }
}

impl CratesApi {
    /// Create a new instance of the test group
    pub fn new(env: Environment) -> (group: Self)
        ensures
            group@ == ConfigView::for_env(env),
    {
        Self { config: Arc::new(Config::for_env(env)) }
    }

    /// The name of the test group
    pub fn to_string(&self) -> (name: String)
        ensures
            name@ == NAME@,
    {
        String::from_str(NAME)
    }
}

impl TestGroup for CratesApi {
    open spec fn plan(config: ConfigView) -> Seq<Seq<RequestView>> {
        seq![
            ApiHealth::plan(config),
        ]
    }

    open spec fn result(
        config: ConfigView,
        outcomes: Seq<Seq<OutcomeView>>,
    ) -> TestGroupResultView {
        TestGroupResultView {
            name: NAME@,
            results: seq![
                ApiHealth::result(config, outcomes[0]),
            ],
        }
    }

    fn requests(&self) -> (requests: Vec<Vec<Request>>) {
        let requests = vec![
            ApiHealth::new(Arc::new(Config::clone(&self.config))).requests(),
        ];
        assert(nested_views(requests@) =~= Self::plan(self@));
        requests
    }

    fn run(&self, outcomes: &Vec<Vec<Outcome>>) -> (result: TestGroupResult) {
        let ghost all = nested_views(outcomes@);
        assert(all[0] == views(outcomes@[0]@));
        assert(Self::plan(self@)[0] == ApiHealth::plan(self@));
        let results = vec![
            ApiHealth::new(Arc::new(Config::clone(&self.config))).run(&outcomes[0]),
        ];
        assert(views(results@) =~= Self::result(self@, all).results);
        TestGroupResult::new(NAME, results)
    }
}

} // verus!
