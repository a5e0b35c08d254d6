//! Smoke tests for rustup

use vstd::prelude::*;
use vstd::string::StringExecFns;

use crate::environment::Environment;
use crate::http_client::Outcome;
use crate::http_client::OutcomeView;
use crate::http_client::Request;
use crate::http_client::RequestView;
use crate::order::views;
use crate::test::test_group::nested_views;
use crate::test::test_suite::twice_nested_views;
use crate::test::TestGroup;
use crate::test::TestSuite;
use crate::test::TestSuiteResult;
use crate::test::TestSuiteResultView;

use self::win_rustup_rs::WinRustupRs;

pub mod win_rustup_rs;

verus! {

/// The name of the test suite
pub const NAME: &'static str = "rustup";

/// Smoke tests for rustup
///
/// This test suite implements the smoke tests for rustup. The tests confirm that the installers
/// are served as expected.
#[derive(Copy, Clone, Debug, PartialEq, Eq, PartialOrd, Ord, Hash)]
pub struct Rustup {
    /// The environment to run the tests in
    env: Environment,
}

impl View for Rustup {
    type V = Environment;

    closed spec fn view(&self) -> Environment {
        self.env
    }
}

impl Default for Rustup {
    fn default() -> (suite: Self)
        ensures
            suite@ == Environment::Staging,
    {
        Self { env: Environment::Staging }
    }
}

impl Rustup {
    /// Creates a new instance of the test suite
    pub fn new(env: Environment) -> (suite: Self)
        ensures
            suite@ == env,
    {
        Self { env }
    }

    /// The name of the test suite
    pub fn to_string(&self) -> (name: String)
        ensures
            name@ == NAME@,
    {
        String::from_str(NAME)
    }
}

impl TestSuite for Rustup {
    open spec fn plan(env: Environment) -> Seq<Seq<Seq<RequestView>>> {
        seq![
            WinRustupRs::plan(win_rustup_rs::ConfigView::for_env(env)),
        ]
    }

    open spec fn result(
        env: Environment,
        outcomes: Seq<Seq<Seq<OutcomeView>>>,
    ) -> TestSuiteResultView {
        TestSuiteResultView {
            name: NAME@,
            results: seq![
                WinRustupRs::result(win_rustup_rs::ConfigView::for_env(env), outcomes[0]),
            ],
        }
    }

    fn requests(&self) -> (requests: Vec<Vec<Vec<Request>>>) {
        let requests = vec![
            WinRustupRs::new(self.env).requests(),
        ];
        assert(twice_nested_views(requests@) =~= Self::plan(self@));
        requests
    }

    fn run(&self, outcomes: &Vec<Vec<Vec<Outcome>>>) -> (result: TestSuiteResult) {
        let ghost all = twice_nested_views(outcomes@);
        assert(all[0] == nested_views(outcomes@[0]@));
        assert(Self::plan(self@)[0] == WinRustupRs::plan(
            win_rustup_rs::ConfigView::for_env(self@),
        ));
        let results = vec![
            WinRustupRs::new(self.env).run(&outcomes[0]),
        ];
        assert(views(results@) =~= Self::result(self@, all).results);
        TestSuiteResult::new(NAME, results)
    }
}

} // verus!
