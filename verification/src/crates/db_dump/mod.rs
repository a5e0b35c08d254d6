//! Database dumps
//!
//! crates.io publishes dumps of its database. The dumps are served by CloudFront, and Fastly
//! redirects to them.

use std::sync::Arc;

use vstd::prelude::*;
use vstd::string::StringExecFns;

use crate::environment::Environment;
use crate::http_client::Outcome;
use crate::http_client::OutcomeView;
use crate::http_client::Request;
use crate::http_client::RequestView;
use crate::order::views;
use crate::test::test_group::nested_views;
use crate::test::Test;
use crate::test::TestGroup;
use crate::test::TestGroupResult;
use crate::test::TestGroupResultView;

pub use self::cloudfront::CloudFront;
pub use self::config::Config;
pub use self::config::ConfigView;
pub use self::fastly::Fastly;

pub mod cloudfront;
pub mod config;
pub mod fastly;

verus! {

/// The name of the test group
pub const NAME: &'static str = "Database dumps";

/// The names of the database dumps
pub open spec fn artifact_names() -> Seq<Seq<char>> {
    seq!["db-dump.tar.gz"@, "db-dump.zip"@]
}

/// The names of the database dumps
pub fn artifacts() -> (names: Vec<&'static str>)
    ensures
        views(names@) == artifact_names(),
{
    let names = vec!["db-dump.tar.gz", "db-dump.zip"];
    assert(views(names@) =~= artifact_names());
    names
}

/// Database dumps
///
/// The smoke tests ensure that the database dumps of crates.io can be downloaded from both
/// Content Delivery Networks.
#[derive(Debug, PartialEq, Eq, PartialOrd, Ord, Hash)]
pub struct DbDump {
    /// Configuration for the test group
    config: Config,
}

impl View for DbDump {
    type V = ConfigView;

    closed spec fn view(&self) -> ConfigView {
        self.config@
    }
}

impl DbDump {
    /// Create a new instance of the test group
    pub fn new(env: Environment) -> (group: Self)
        ensures
            group@ == ConfigView::for_env(env),
    {
        Self { config: Config::for_env(env) }
    }

    /// The name of the test group
    pub fn to_string(&self) -> (name: String)
        ensures
            name@ == NAME@,
    {
        String::from_str(NAME)
    }
}

impl TestGroup for DbDump {
    open spec fn plan(config: ConfigView) -> Seq<Seq<RequestView>> {
        seq![
            CloudFront::plan(config),
            Fastly::plan(config),
        ]
    }

    open spec fn result(
        config: ConfigView,
        outcomes: Seq<Seq<OutcomeView>>,
    ) -> TestGroupResultView {
        TestGroupResultView {
            name: NAME@,
            results: seq![
                CloudFront::result(config, outcomes[0]),
                Fastly::result(config, outcomes[1]),
            ],
        }
    }

    fn requests(&self) -> (requests: Vec<Vec<Request>>) {
        let requests = vec![
            CloudFront::new(Arc::new(self.config.clone())).requests(),
            Fastly::new(&self.config).requests(),
        ];
        assert(nested_views(requests@) =~= Self::plan(self@));
        requests
    }

    fn run(&self, outcomes: &Vec<Vec<Outcome>>) -> (result: TestGroupResult) {
        let ghost all = nested_views(outcomes@);
        assert(all[0] == views(outcomes@[0]@));
        assert(Self::plan(self@)[0] == CloudFront::plan(self@));
        assert(all[1] == views(outcomes@[1]@));
        assert(Self::plan(self@)[1] == Fastly::plan(self@));
        let results = vec![
            CloudFront::new(Arc::new(self.config.clone())).run(&outcomes[0]),
            Fastly::new(&self.config).run(&outcomes[1]),
        ];
        assert(views(results@) =~= Self::result(self@, all).results);
        TestGroupResult::new(NAME, results)
    }
}

} // verus!
