//! win.rustup.rs
//!
//! This module tests the installers that win.rustup.rs serves for Windows.

use std::sync::Arc;

use vstd::prelude::*;
use vstd::string::StringExecFns;

use crate::assertion::failed;
use crate::assertion::passed;
use crate::http_client::custom_http_client;
use crate::http_client::status_text;
use crate::http_client::ClientView;
use crate::http_client::Method;
use crate::test::TestResult;
use crate::test::TestResultView;
use crate::text::contains;
use crate::text::join2;
use crate::text::occurs_in;
use crate::text::same_text;
use crate::environment::Environment;
use crate::http_client::Outcome;
use crate::http_client::OutcomeView;
use crate::http_client::Request;
use crate::http_client::RequestView;
use crate::order::views;
use crate::test::test_group::nested_views;
use crate::test::Test;
use crate::test::TestGroup;
use crate::test::TestGroupResult;
use crate::test::TestGroupResultView;

pub use self::aarch64::Aarch64;
pub use self::config::Config;
pub use self::config::ConfigView;
pub use self::i686::I686;
pub use self::x86_64::X86_64;

pub mod aarch64;
pub mod config;
pub mod i686;
pub mod x86_64;

verus! {

/// The name of the test group
pub const NAME: &'static str = "win.rustup.rs";

/// win.rustup.rs
///
/// The installers of rustup for Windows are served by win.rustup.rs. The smoke tests ensure that
/// the installer for each architecture is there, and that it is served as a download.
#[derive(Debug, PartialEq, Eq, PartialOrd, Ord, Hash)]
pub struct WinRustupRs {
    /// Configuration for the test group
    config: Config,
}

impl View for WinRustupRs {
    type V = ConfigView;

    closed spec fn view(&self) -> ConfigView {
        self.config@
    }
}

impl WinRustupRs {
    /// Create a new instance of the test group
    pub fn new(env: Environment) -> (group: Self)
        ensures
            group@ == ConfigView::for_env(env),
    {
        Self { config: Config::for_env(env) }
    }

    /// The name of the test group
    pub fn to_string(&self) -> (name: String)
        ensures
            name@ == NAME@,
    {
        String::from_str(NAME)
    }
}

impl TestGroup for WinRustupRs {
    open spec fn plan(config: ConfigView) -> Seq<Seq<RequestView>> {
        seq![
            Aarch64::plan(config),
            I686::plan(config),
            X86_64::plan(config),
        ]
    }

    open spec fn result(
        config: ConfigView,
        outcomes: Seq<Seq<OutcomeView>>,
    ) -> TestGroupResultView {
        TestGroupResultView {
            name: NAME@,
            results: seq![
                Aarch64::result(config, outcomes[0]),
                I686::result(config, outcomes[1]),
                X86_64::result(config, outcomes[2]),
            ],
        }
    }

    fn requests(&self) -> (requests: Vec<Vec<Request>>) {
        let requests = vec![
            Aarch64::new(Arc::new(self.config.clone())).requests(),
            I686::new(&self.config).requests(),
            X86_64::new(Arc::new(self.config.clone())).requests(),
        ];
        assert(nested_views(requests@) =~= Self::plan(self@));
        requests
    }

    fn run(&self, outcomes: &Vec<Vec<Outcome>>) -> (result: TestGroupResult) {
        let ghost all = nested_views(outcomes@);
        assert(all[0] == views(outcomes@[0]@));
        assert(Self::plan(self@)[0] == Aarch64::plan(self@));
        assert(all[1] == views(outcomes@[1]@));
        assert(Self::plan(self@)[1] == I686::plan(self@));
        assert(all[2] == views(outcomes@[2]@));
        assert(Self::plan(self@)[2] == X86_64::plan(self@));
        let results = vec![
            Aarch64::new(Arc::new(self.config.clone())).run(&outcomes[0]),
            I686::new(&self.config).run(&outcomes[1]),
            X86_64::new(Arc::new(self.config.clone())).run(&outcomes[2]),
        ];
        assert(views(results@) =~= Self::result(self@, all).results);
        TestGroupResult::new(NAME, results)
    }
}

/// The request for the headers of the installer at `url`
pub open spec fn installer_plan(url: Seq<char>) -> RequestView {
    ClientView::custom().request(Method::Head, url)
}

/// What a test of an installer concludes
///
/// If the request failed, the test fails with the error message. It fails as well if the status
/// is not 200, if the `Content-Type` header does not announce an executable, or if the
/// `Content-Disposition` header does not announce the installer as an attachment.
pub open spec fn attachment_result(name: Seq<char>, outcome: OutcomeView) -> TestResultView {
    match outcome {
        OutcomeView::Failed(error) => failed(name, error),
        OutcomeView::Received(response) => if response.status != 200 {
            failed(name, "Expected HTTP 200, got HTTP "@ + status_text(response.status))
        } else if response.header("content-type"@) != Some("application/x-msdownload"@) {
            failed(
                name,
                "Expected the Content-Type header to be set to 'application/x-msdownload'"@,
            )
        } else if !(response.header("content-disposition"@) matches Some(value) && occurs_in(
            "attachment; filename=\"rustup-init.exe\""@,
            value,
        )) {
            failed(name, "Expected the Content-Disposition header to indicate an attachment"@)
        } else {
            passed(name)
        },
    }
}

/// The request for the headers of the installer at `url`
pub fn installer_request(url: String) -> (request: Request)
    ensures
        request@ == installer_plan(url@),
{
    custom_http_client().head(url)
}

/// Expect the response to announce the installer as an attachment
///
/// The test passes if the status is 200, the `Content-Type` header is
/// `application/x-msdownload` and the `Content-Disposition` header names `rustup-init.exe` as an
/// attachment. Otherwise the result says which of them was not as expected.
pub fn expect_attachment(name: &'static str, outcome: &Outcome) -> (result: TestResult)
    ensures
        result@ == attachment_result(name@, outcome@),
{
    let response = match outcome {
        Outcome::Failed(error) => {
            return TestResult::failed(name, error.clone());
        },
        Outcome::Received(response) => response,
    };

    if response.status.as_u16() != 200 {
        let status = response.status.to_string();
        return TestResult::failed(name, join2("Expected HTTP 200, got HTTP ", status.as_str()));
    }
    let is_executable = match response.header("content-type") {
        Some(header) => same_text(header.as_str(), "application/x-msdownload"),
        None => false,
    };
    if !is_executable {
        return TestResult::failed(
            name,
            String::from_str(
                "Expected the Content-Type header to be set to 'application/x-msdownload'",
            ),
        );
    }
    let is_attachment = match response.header("content-disposition") {
        Some(header) => contains(header.as_str(), "attachment; filename=\"rustup-init.exe\""),
        None => false,
    };
    if !is_attachment {
        return TestResult::failed(
            name,
            String::from_str("Expected the Content-Disposition header to indicate an attachment"),
        );
    }
    TestResult::passed(name)
}

} // verus!
