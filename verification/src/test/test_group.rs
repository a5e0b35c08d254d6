//! A group of tests that belong together

use vstd::prelude::*;

use crate::http_client::Outcome;
use crate::http_client::OutcomeView;
use crate::http_client::Request;
use crate::http_client::RequestView;
use crate::order::views;
use crate::test::TestGroupResult;
use crate::test::TestGroupResultView;

verus! {

/// The views of the items of a sequence of collections, one for one
pub open spec fn nested_views<T: View>(items: Seq<Vec<T>>) -> Seq<Seq<T::V>> {
    items.map_values(|inner: Vec<T>| views(inner@))
}

/// Whether two sequences of sequences have the same lengths throughout
pub open spec fn same_shape<A, B>(a: Seq<Seq<A>>, b: Seq<Seq<B>>) -> bool {
    &&& a.len() == b.len()
    &&& forall|i: int| 0 <= i < a.len() ==> (#[trigger] a[i]).len() == b[i].len()
}

/// A group of tests that belong together
///
/// A test group is a collection of tests that are related to each other. For example, a test group
/// might contain a few tests that together verify a particular feature of the system. The tests are
/// run together and the results are aggregated to produce a single result for the group.
pub trait TestGroup: View {
    /// The requests that the tests of the group need answered: for each test its own, in order
    spec fn plan(config: Self::V) -> Seq<Seq<RequestView>>;

    /// What the group concludes from the outcomes of the requests of its tests
    spec fn result(config: Self::V, outcomes: Seq<Seq<OutcomeView>>) -> TestGroupResultView;

    /// The requests that the tests of the group need answered: for each test its own, in order
    fn requests(&self) -> (requests: Vec<Vec<Request>>)
        ensures
            nested_views(requests@) == Self::plan(self@),
    ;

    /// Run the tests in this group on the outcomes of their requests
    fn run(&self, outcomes: &Vec<Vec<Outcome>>) -> (result: TestGroupResult)
        requires
            same_shape(nested_views(outcomes@), Self::plan(self@)),
        ensures
            result@ == Self::result(self@, nested_views(outcomes@)),
    ;
}

} // verus!
