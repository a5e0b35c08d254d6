//! What holds of the result of every test
//!
//! A test never fails without saying why: where no response came, its result carries the
//! description of the error, and where the response was not the expected one, its result says
//! what was expected. A test that passes has nothing to say.

use vstd::prelude::*;

use crate::assertion::failed;
use crate::assertion::first_failure_from;
use crate::assertion::success_result;
use crate::assertion::summary;
use crate::crates::crates_4891::status_result;
use crate::crates::crates_6164::cors_result;
use crate::crates::db_dump;
use crate::crates::issue_4891::forbidden_result;
use crate::http_client::OutcomeView;
use crate::releases::doc_router;
use crate::releases::list_files::loading_result;
use crate::releases::rustup_sh;
use crate::rustup::win_rustup_rs::attachment_result;
use crate::test::TestResultView;

verus! {

/// Whether a result is a success without a message, or a failure with one
pub open spec fn is_explained(result: TestResultView) -> bool {
    result.success <==> result.message is None
}

/// Whatever a test expects of the response, it fails with the description of the error where
/// no response came.
pub proof fn lemma_transport_error_fails(
    name: Seq<char>,
    error: Seq<char>,
    expectation: Seq<char>,
    expected_status: u16,
    expected_location: Seq<char>,
    config: db_dump::ConfigView,
    path: Seq<char>,
)
    ensures
        success_result(name, expectation, OutcomeView::Failed(error)) == failed(name, error),
        status_result(name, expected_status, OutcomeView::Failed(error)) == failed(name, error),
        forbidden_result(name, OutcomeView::Failed(error)) == failed(name, error),
        cors_result(name, OutcomeView::Failed(error)) == failed(name, error),
        db_dump::fastly::path_result(config, path, OutcomeView::Failed(error)) == failed(
            db_dump::fastly::NAME@,
            error,
        ),
        doc_router::redirect_result(name, expected_location, OutcomeView::Failed(error))
            == failed(name, error),
        loading_result(name, OutcomeView::Failed(error)) == failed(name, error),
        rustup_sh::redirect_result(name, OutcomeView::Failed(error)) == failed(name, error),
        attachment_result(name, OutcomeView::Failed(error)) == failed(name, error),
{
}

/// Whatever a test expects and whatever came back, its result is a success without a message
/// or a failure with one.
pub proof fn lemma_results_are_explained(
    name: Seq<char>,
    outcome: OutcomeView,
    expectation: Seq<char>,
    expected_status: u16,
    expected_location: Seq<char>,
    config: db_dump::ConfigView,
    path: Seq<char>,
)
    ensures
        is_explained(success_result(name, expectation, outcome)),
        is_explained(status_result(name, expected_status, outcome)),
        is_explained(forbidden_result(name, outcome)),
        is_explained(cors_result(name, outcome)),
        is_explained(db_dump::fastly::path_result(config, path, outcome)),
        is_explained(doc_router::redirect_result(name, expected_location, outcome)),
        is_explained(loading_result(name, outcome)),
        is_explained(rustup_sh::redirect_result(name, outcome)),
        is_explained(attachment_result(name, outcome)),
{
}

proof fn lemma_first_failure_is_explained(results: Seq<TestResultView>, i: int)
    requires
        0 <= i,
        forall|k: int| 0 <= k < results.len() ==> is_explained(#[trigger] results[k]),
    ensures
        first_failure_from(results, i) matches Some(failure) ==> !failure.success
            && failure.message is Some,
    decreases results.len() - i,
{
    if i < results.len() {
        assert(is_explained(results[i]));
        lemma_first_failure_is_explained(results, i + 1);
    }
}

/// A test that made several requests is as well explained as the results of its requests are.
pub proof fn lemma_summary_is_explained(name: Seq<char>, results: Seq<TestResultView>)
    requires
        forall|k: int| 0 <= k < results.len() ==> is_explained(#[trigger] results[k]),
    ensures
        is_explained(summary(name, results)),
{
    lemma_first_failure_is_explained(results, 0);
}

} // verus!
