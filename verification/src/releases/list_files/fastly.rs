//! Test that Fastly serves the list of files

use std::sync::Arc;

use vstd::prelude::*;

use crate::http_client::Outcome;
use crate::http_client::OutcomeView;
use crate::http_client::Request;
use crate::http_client::RequestView;
use crate::order::views;
use crate::releases::list_files::expect_loading_files;
use crate::releases::list_files::index_plan;
use crate::releases::list_files::index_request;
use crate::releases::list_files::loading_result;
use crate::test::Test;
use crate::test::TestResult;
use crate::test::TestResultView;

use super::config::Config;
use super::config::ConfigView;

verus! {

/// The name of the test
pub const NAME: &'static str = "Fastly";

/// Test that Fastly serves the list of files
///
/// This test asks Fastly for the index of a release. It expects the page that loads the
/// contents of the directory.
pub struct Fastly {
    /// Configuration for this test
    config: Arc<Config>,
}

impl View for Fastly {
    type V = ConfigView;

    closed spec fn view(&self) -> ConfigView {
        self.config@
    }
}

impl Fastly {
    /// Create a new instance of the test
    pub fn new(config: Arc<Config>) -> (test: Self)
        ensures
            test@ == config@,
    {
        Self { config }
    }
}

impl Test for Fastly {
    open spec fn plan(config: ConfigView) -> Seq<RequestView> {
        seq![index_plan(config.fastly_url, config.release)]
    }

    open spec fn result(config: ConfigView, outcomes: Seq<OutcomeView>) -> TestResultView {
        loading_result(NAME@, outcomes[0])
    }

    fn requests(&self) -> (requests: Vec<Request>) {
        let request = index_request(
            self.config.fastly_url().as_str(),
            self.config.release().as_str(),
        );
        let requests = vec![request];
        assert(views(requests@) =~= Self::plan(self@));
        requests
    }

    fn run(&self, outcomes: &Vec<Outcome>) -> (result: TestResult) {
        expect_loading_files(NAME, &outcomes[0])
    }
}

} // verus!
