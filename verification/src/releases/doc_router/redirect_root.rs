//! Redirect root path

use std::sync::Arc;

use vstd::prelude::*;
use vstd::string::StringExecFns;

use crate::http_client::Outcome;
use crate::http_client::OutcomeView;
use crate::http_client::Request;
use crate::http_client::RequestView;
use crate::order::views;
use crate::releases::doc_router::expect_redirect;
use crate::releases::doc_router::redirect_plan;
use crate::releases::doc_router::redirect_request;
use crate::releases::doc_router::redirect_result;
use crate::test::Test;
use crate::test::TestResult;
use crate::test::TestResultView;
use crate::text::join2;

use super::config::Config;
use super::config::ConfigView;

verus! {

/// The name of the test
pub const NAME: &'static str = "Redirect root path";

/// Redirect root path
///
/// The root of the documentation leads to the stable release. This test asks for the root
/// path and expects a redirect to `/stable/`.
#[derive(Debug, PartialEq, Eq, PartialOrd, Ord, Hash)]
pub struct RedirectRoot {
    /// Configuration for this test
    config: Arc<Config>,
}

impl View for RedirectRoot {
    type V = ConfigView;

    closed spec fn view(&self) -> ConfigView {
        self.config@
    }
}

impl RedirectRoot {
    /// Create a new instance of the test
    pub fn new(config: Arc<Config>) -> (test: Self)
        ensures
            test@ == config@,
    {
        Self { config }
    }

    /// The name of the test
    pub fn to_string(&self) -> (name: String)
        ensures
            name@ == NAME@,
    {
        String::from_str(NAME)
    }
}

impl Test for RedirectRoot {
    open spec fn plan(config: ConfigView) -> Seq<RequestView> {
        seq![redirect_plan(config.cloudfront_url + "/"@)]
    }

    open spec fn result(config: ConfigView, outcomes: Seq<OutcomeView>) -> TestResultView {
        redirect_result(NAME@, "/stable/"@, outcomes[0])
    }

    fn requests(&self) -> (requests: Vec<Request>) {
        let url = join2(self.config.cloudfront_url().as_str(), "/");
        let requests = vec![redirect_request(url)];
        assert(views(requests@) =~= Self::plan(self@));
        requests
    }

    fn run(&self, outcomes: &Vec<Outcome>) -> (result: TestResult) {
        expect_redirect(NAME, "/stable/", &outcomes[0])
    }
}

} // verus!
