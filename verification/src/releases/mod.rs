//! Smoke tests for Rust releases

use vstd::prelude::*;
use vstd::string::StringExecFns;

use crate::environment::Environment;
use crate::http_client::Outcome;
use crate::http_client::OutcomeView;
use crate::http_client::Request;
use crate::http_client::RequestView;
use crate::order::views;
use crate::test::test_group::nested_views;
use crate::test::test_suite::twice_nested_views;
use crate::test::TestGroup;
use crate::test::TestSuite;
use crate::test::TestSuiteResult;
use crate::test::TestSuiteResultView;

use self::list_files::ListFiles;
use self::rustup_sh::RustupSh;

pub mod doc_router;
pub mod list_files;
pub mod rustup_sh;

verus! {

/// The name of the test suite
pub const NAME: &'static str = "Rust releases";

/// Smoke tests for Rust releases
///
/// This test suite implements the smoke tests for the release archives of Rust. The tests
/// confirm that the archives are served as expected by both Content Delivery Networks.
#[derive(Copy, Clone, Debug, PartialEq, Eq, PartialOrd, Ord, Hash)]
pub struct Releases {
    /// The environment to run the tests in
    env: Environment,
}

impl View for Releases {
    type V = Environment;

    closed spec fn view(&self) -> Environment {
        self.env
    }
}

impl Default for Releases {
    fn default() -> (suite: Self)
        ensures
            suite@ == Environment::Staging,
    {
        Self { env: Environment::Staging }
    }
}

impl Releases {
    /// Creates a new instance of the test suite
    pub fn new(env: Environment) -> (suite: Self)
        ensures
            suite@ == env,
    {
        Self { env }
    }

    /// The name of the test suite
    pub fn to_string(&self) -> (name: String)
        ensures
            name@ == NAME@,
    {
        String::from_str(NAME)
    }
}

impl TestSuite for Releases {
    open spec fn plan(env: Environment) -> Seq<Seq<Seq<RequestView>>> {
        seq![
            ListFiles::plan(list_files::ConfigView::for_env(env)),
            RustupSh::plan(rustup_sh::ConfigView::for_env(env)),
        ]
    }

    open spec fn result(
        env: Environment,
        outcomes: Seq<Seq<Seq<OutcomeView>>>,
    ) -> TestSuiteResultView {
        TestSuiteResultView {
            name: NAME@,
            results: seq![
                ListFiles::result(list_files::ConfigView::for_env(env), outcomes[0]),
                RustupSh::result(rustup_sh::ConfigView::for_env(env), outcomes[1]),
            ],
        }
    }

    fn requests(&self) -> (requests: Vec<Vec<Vec<Request>>>) {
        let requests = vec![
            ListFiles::new(self.env).requests(),
            RustupSh::new(self.env).requests(),
        ];
        assert(twice_nested_views(requests@) =~= Self::plan(self@));
        requests
    }

    fn run(&self, outcomes: &Vec<Vec<Vec<Outcome>>>) -> (result: TestSuiteResult) {
        let ghost all = twice_nested_views(outcomes@);
        assert(all[0] == nested_views(outcomes@[0]@));
        assert(Self::plan(self@)[0] == ListFiles::plan(
            list_files::ConfigView::for_env(self@),
        ));
        assert(all[1] == nested_views(outcomes@[1]@));
        assert(Self::plan(self@)[1] == RustupSh::plan(
            rustup_sh::ConfigView::for_env(self@),
        ));
        let results = vec![
            ListFiles::new(self.env).run(&outcomes[0]),
            RustupSh::new(self.env).run(&outcomes[1]),
        ];
        assert(views(results@) =~= Self::result(self@, all).results);
        TestSuiteResult::new(NAME, results)
    }
}

} // verus!
