//! Types that represent tests and their results

use vstd::prelude::*;

use crate::http_client::Outcome;
use crate::http_client::OutcomeView;
use crate::http_client::Request;
use crate::http_client::RequestView;
use crate::order::views;

pub use self::test_group::TestGroup;
pub use self::test_group_result::TestGroupResult;
pub use self::test_group_result::TestGroupResultView;
pub use self::test_result::TestResult;
pub use self::test_result::TestResultView;
pub use self::test_suite::TestSuite;
pub use self::test_suite_result::TestSuiteResult;
pub use self::test_suite_result::TestSuiteResultView;

pub mod test_group;
pub mod test_result;

verus! {

/// A test
///
/// A test performs a single check against the Rust project's infrastructure. It says which
/// requests it needs answered, and concludes from their outcomes whether the check passed or
/// failed. What a test asks for and what it concludes is a matter of its configuration, which
/// is its view, and of the outcomes alone.
pub trait Test: View {
    /// The requests that the test needs answered, in order
    spec fn plan(config: Self::V) -> Seq<RequestView>;

    /// What the test concludes from the outcomes of its requests
    spec fn result(config: Self::V, outcomes: Seq<OutcomeView>) -> TestResultView;

    /// The requests that the test needs answered, in order
    fn requests(&self) -> (requests: Vec<Request>)
        ensures
            views(requests@) == Self::plan(self@),
    ;

    /// Run the test on the outcomes of its requests, one for each request and in their order
    fn run(&self, outcomes: &Vec<Outcome>) -> (result: TestResult)
        requires
            outcomes@.len() == Self::plan(self@).len(),
        ensures
            result@ == Self::result(self@, views(outcomes@)),
    ;
}

} // verus!
