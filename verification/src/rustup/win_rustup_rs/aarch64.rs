//! Test the installer for aarch64

use std::sync::Arc;

use vstd::prelude::*;

use crate::http_client::Outcome;
use crate::http_client::OutcomeView;
use crate::http_client::Request;
use crate::http_client::RequestView;
use crate::order::views;
use crate::rustup::win_rustup_rs::attachment_result;
use crate::rustup::win_rustup_rs::expect_attachment;
use crate::rustup::win_rustup_rs::installer_plan;
use crate::rustup::win_rustup_rs::installer_request;
use crate::test::Test;
use crate::test::TestResult;
use crate::test::TestResultView;
use crate::text::join2;

use super::config::Config;
use super::config::ConfigView;

verus! {

/// The name of the test
pub const NAME: &'static str = "aarch64";

/// Test the installer for aarch64
///
/// This test asks for the headers of the installer for aarch64. It expects an HTTP 200 OK
/// response that announces an executable as an attachment.
pub struct Aarch64 {
    /// Configuration for this test
    config: Arc<Config>,
}

impl View for Aarch64 {
    type V = ConfigView;

    closed spec fn view(&self) -> ConfigView {
        self.config@
    }
}

impl Aarch64 {
    /// Create a new instance of the test
    pub fn new(config: Arc<Config>) -> (test: Self)
        ensures
            test@ == config@,
    {
        Self { config }
    }
}

impl Test for Aarch64 {
    open spec fn plan(config: ConfigView) -> Seq<RequestView> {
        seq![installer_plan(config.cloudfront_url + "/aarch64"@)]
    }

    open spec fn result(config: ConfigView, outcomes: Seq<OutcomeView>) -> TestResultView {
        attachment_result(NAME@, outcomes[0])
    }

    fn requests(&self) -> (requests: Vec<Request>) {
        let url = join2(self.config.cloudfront_url().as_str(), "/aarch64");
        let requests = vec![installer_request(url)];
        assert(views(requests@) =~= Self::plan(self@));
        requests
    }

    fn run(&self, outcomes: &Vec<Outcome>) -> (result: TestResult) {
        expect_attachment(NAME, &outcomes[0])
    }
}

} // verus!
