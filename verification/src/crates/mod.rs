//! Smoke tests for crates.io

use vstd::prelude::*;
use vstd::string::StringExecFns;

use crate::environment::Environment;
use crate::http_client::Outcome;
use crate::http_client::OutcomeView;
use crate::http_client::Request;
use crate::http_client::RequestView;
use crate::order::views;
use crate::test::test_group::nested_views;
use crate::test::test_suite::twice_nested_views;
use crate::test::TestGroup;
use crate::test::TestSuite;
use crate::test::TestSuiteResult;
use crate::test::TestSuiteResultView;

use self::crates_4891::Crates4891;
use self::crates_6164::Crates6164;
use self::crates_index::CratesIndex;
use self::db_dump::DbDump;

pub mod crates_4891;
pub mod crates_6164;
pub mod crates_api;
pub mod crates_index;
pub mod db_dump;
pub mod issue_4891;
pub mod utils;

verus! {

/// The name of the test suite
pub const NAME: &'static str = "crates.io";

/// Smoke tests for crates.io
///
/// This test suite implements the smoke tests for crates.io, mostly importantly its Content
/// Delivery Network. The tests ensure that prior bugs in the configuration are not reintroduced,
/// and that CloudFront and Fastly behave the same.
#[derive(Copy, Clone, Debug, PartialEq, Eq, PartialOrd, Ord, Hash)]
pub struct Crates {
    /// The environment to run the tests in
    env: Environment,
}

impl View for Crates {
    type V = Environment;

    closed spec fn view(&self) -> Environment {
        self.env
    }
}

impl Default for Crates {
    fn default() -> (suite: Self)
        ensures
            suite@ == Environment::Staging,
    {
        Self { env: Environment::Staging }
    }
}

impl Crates {
    /// Creates a new instance of the test suite
    pub fn new(env: Environment) -> (suite: Self)
        ensures
            suite@ == env,
    {
        Self { env }
    }

    /// The name of the test suite
    pub fn to_string(&self) -> (name: String)
        ensures
            name@ == NAME@,
    {
        String::from_str(NAME)
    }
}

impl TestSuite for Crates {
    open spec fn plan(env: Environment) -> Seq<Seq<Seq<RequestView>>> {
        seq![
            Crates4891::plan(crates_4891::ConfigView::for_env(env)),
            Crates6164::plan(crates_6164::ConfigView::for_env(env)),
            CratesIndex::plan(crates_index::ConfigView::for_env(env)),
            DbDump::plan(db_dump::ConfigView::for_env(env)),
        ]
    }

    open spec fn result(
        env: Environment,
        outcomes: Seq<Seq<Seq<OutcomeView>>>,
    ) -> TestSuiteResultView {
        TestSuiteResultView {
            name: NAME@,
            results: seq![
                Crates4891::result(crates_4891::ConfigView::for_env(env), outcomes[0]),
                Crates6164::result(crates_6164::ConfigView::for_env(env), outcomes[1]),
                CratesIndex::result(crates_index::ConfigView::for_env(env), outcomes[2]),
                DbDump::result(db_dump::ConfigView::for_env(env), outcomes[3]),
            ],
        }
    }

    fn requests(&self) -> (requests: Vec<Vec<Vec<Request>>>) {
        let requests = vec![
            Crates4891::new(self.env).requests(),
            Crates6164::new(self.env).requests(),
            CratesIndex::new(self.env).requests(),
            DbDump::new(self.env).requests(),
        ];
        assert(twice_nested_views(requests@) =~= Self::plan(self@));
        requests
    }

    fn run(&self, outcomes: &Vec<Vec<Vec<Outcome>>>) -> (result: TestSuiteResult) {
        let ghost all = twice_nested_views(outcomes@);
        assert(all[0] == nested_views(outcomes@[0]@));
        assert(Self::plan(self@)[0] == Crates4891::plan(
            crates_4891::ConfigView::for_env(self@),
        ));
        assert(all[1] == nested_views(outcomes@[1]@));
        assert(Self::plan(self@)[1] == Crates6164::plan(
            crates_6164::ConfigView::for_env(self@),
        ));
        assert(all[2] == nested_views(outcomes@[2]@));
        assert(Self::plan(self@)[2] == CratesIndex::plan(
            crates_index::ConfigView::for_env(self@),
        ));
        assert(all[3] == nested_views(outcomes@[3]@));
        assert(Self::plan(self@)[3] == DbDump::plan(
            db_dump::ConfigView::for_env(self@),
        ));
        let results = vec![
            Crates4891::new(self.env).run(&outcomes[0]),
            Crates6164::new(self.env).run(&outcomes[1]),
            CratesIndex::new(self.env).run(&outcomes[2]),
            DbDump::new(self.env).run(&outcomes[3]),
        ];
        assert(views(results@) =~= Self::result(self@, all).results);
        TestSuiteResult::new(NAME, results)
    }
}

} // verus!
