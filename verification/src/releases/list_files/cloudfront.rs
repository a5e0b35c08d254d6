//! Test that CloudFront serves the list of files

use std::sync::Arc;

use vstd::prelude::*;

use crate::http_client::Outcome;
use crate::http_client::OutcomeView;
use crate::http_client::Request;
use crate::http_client::RequestView;
use crate::order::views;
use crate::releases::list_files::expect_loading_files;
use crate::releases::list_files::index_plan;
use crate::releases::list_files::index_request;
use crate::releases::list_files::loading_result;
use crate::test::Test;
use crate::test::TestResult;
use crate::test::TestResultView;

use super::config::Config;
use super::config::ConfigView;

verus! {

/// The name of the test
pub const NAME: &'static str = "CloudFront";

/// Test that CloudFront serves the list of files
///
/// This test asks CloudFront for the index of a release. It expects the page that loads the
/// contents of the directory.
pub struct CloudFront {
    /// Configuration for this test
    config: Arc<Config>,
}

impl View for CloudFront {
    type V = ConfigView;

    closed spec fn view(&self) -> ConfigView {
        self.config@
    }
}

impl CloudFront {
    /// Create a new instance of the test
    pub fn new(config: Arc<Config>) -> (test: Self)
        ensures
            test@ == config@,
    {
        Self { config }
    }
}

impl Test for CloudFront {
    open spec fn plan(config: ConfigView) -> Seq<RequestView> {
        seq![index_plan(config.cloudfront_url, config.release)]
    }

    open spec fn result(config: ConfigView, outcomes: Seq<OutcomeView>) -> TestResultView {
        loading_result(NAME@, outcomes[0])
    }

    fn requests(&self) -> (requests: Vec<Request>) {
        let request = index_request(
            self.config.cloudfront_url().as_str(),
            self.config.release().as_str(),
        );
        let requests = vec![request];
        assert(views(requests@) =~= Self::plan(self@));
        requests
    }

    fn run(&self, outcomes: &Vec<Outcome>) -> (result: TestResult) {
        expect_loading_files(NAME, &outcomes[0])
    }
}

} // verus!
