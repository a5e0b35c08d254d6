//! The report of a run
//!
//! The suites of a run finish in no particular order. Before anything is shown, their results
//! are put in the order of their content, so that two runs with the same results show the same
//! report.

use vstd::prelude::*;
use vstd::string::StringExecFns;

use crate::order::at_most;
use crate::order::lemma_sorted_ignores_arrival;
use crate::order::lemma_sorted_is_arranged;
use crate::order::lemma_sorted_unique_arrangement;
use crate::order::sort;
use crate::order::sorted;
use crate::order::views;
use crate::test::test_result::lemma_result_order_total;
use crate::test::test_result::result_order;
use crate::test::test_suite_result::group_blocks;
use crate::test::test_suite_result::lemma_suite_order_total;
use crate::test::test_suite_result::suite_order;
use crate::test::TestGroupResult;
use crate::test::TestGroupResultView;
use crate::test::TestResult;
use crate::test::TestResultView;
use crate::test::TestSuiteResult;
use crate::test::TestSuiteResultView;
use crate::text::lemma_text_order_total;
use crate::text::text_order;

verus! {

/// What the report shows for suites, in the order given: each as it is rendered, with a line
/// feed after it
pub open spec fn suite_blocks(results: Seq<TestSuiteResultView>) -> Seq<char>
    decreases results.len(),
{
    if results.len() == 0 {
        Seq::empty()
    } else {
        suite_blocks(results.drop_last()) + results.last().rendered() + "\n"@
    }
}

/// The report of a run: its suites in the order of their content, one after the other
pub open spec fn report(results: Seq<TestSuiteResultView>) -> Seq<char> {
    suite_blocks(sorted(results, suite_order()))
}

/// Whether every suite of a run was successful
pub open spec fn all_successful(results: Seq<TestSuiteResultView>) -> bool {
    forall|i: int| 0 <= i < results.len() ==> (#[trigger] results[i]).success()
}

/// The exit status of a run: 0 if every suite was successful, and 1 if not
pub open spec fn exit_status(results: Seq<TestSuiteResultView>) -> i32 {
    if all_successful(results) {
        0
    } else {
        1
    }
}

/// Render the report of a run
///
/// The results are sorted so that the output is deterministic. Each suite is followed by a line
/// feed.
pub fn render(results: Vec<TestSuiteResult>) -> (text: String)
    ensures
        text@ == report(views(results@)),
{
    let results = sort(results);
    let ghost suites = views(results@);
    let mut text = String::new();
    let mut i: usize = 0;
    while i < results.len()
        invariant
            i <= results.len(),
            suites == views(results@),
            text@ == suite_blocks(suites.take(i as int)),
        decreases results.len() - i,
    {
        let block = results[i].to_string();
        text.append(block.as_str());
        text.append("\n");
        proof {
            assert(suites.take(i + 1).drop_last() =~= suites.take(i as int));
            assert(suites.take(i + 1).last() == results@[i as int]@);
        }
        i += 1;
    }
    assert(suites.take(results@.len() as int) =~= suites);
    text
}

/// The exit status of a run: 0 if every suite was successful, and 1 if not
pub fn exit_code(results: &Vec<TestSuiteResult>) -> (code: i32)
    ensures
        code == exit_status(views(results@)),
{
    let ghost suites = views(results@);
    let mut i: usize = 0;
    while i < results.len()
        invariant
            i <= results.len(),
            suites == views(results@),
            forall|k: int| 0 <= k < i ==> (#[trigger] suites[k]).success(),
        decreases results.len() - i,
    {
        if !results[i].success() {
            assert(!suites[i as int].success());
            return 1;
        }
        i += 1;
    }
    0
}

/// What is shown for a test result is a matter of what the result says: two results that say
/// the same are rendered alike, and so is one result rendered twice.
pub proof fn lemma_result_rendering_repeats(a: TestResult, b: TestResult)
    requires
        a@ == b@,
    ensures
        a@.rendered() == b@.rendered(),
{
}

/// What is shown for the result of a group is a matter of what the result says: two results
/// that say the same are rendered alike, and so is one result rendered twice.
pub proof fn lemma_group_rendering_repeats(a: TestGroupResult, b: TestGroupResult)
    requires
        a@ == b@,
    ensures
        a@.rendered() == b@.rendered(),
        a@.success() == b@.success(),
{
}

/// What is shown for the result of a suite is a matter of what the result says: two results
/// that say the same are rendered alike, and so is one result rendered twice.
pub proof fn lemma_suite_rendering_repeats(a: TestSuiteResult, b: TestSuiteResult)
    requires
        a@ == b@,
    ensures
        a@.rendered() == b@.rendered(),
        a@.success() == b@.success(),
{
}

/// Two sequences that hold the same items the same number of times agree on whether all their
/// items have a property
proof fn lemma_same_items<T>(a: Seq<T>, b: Seq<T>, p: spec_fn(T) -> bool)
    requires
        a.to_multiset() == b.to_multiset(),
        forall|i: int| 0 <= i < a.len() ==> #[trigger] p(a[i]),
    ensures
        forall|i: int| 0 <= i < b.len() ==> #[trigger] p(b[i]),
{
    a.to_multiset_ensures();
    b.to_multiset_ensures();
    assert forall|i: int| 0 <= i < b.len() implies #[trigger] p(b[i]) by {
        assert(b.contains(b[i]));
        assert(b.to_multiset().count(b[i]) > 0);
        assert(a.contains(b[i]));
        let k = choose|k: int| 0 <= k < a.len() && a[k] == b[i];
        assert(p(a[k]));
    }
}

/// The report of a group does not show in which order the results of its tests arrived: two
/// group results of one name that hold the same test results, each as often as the other, are
/// rendered alike and agree on success.
pub proof fn lemma_group_ignores_arrival(a: TestGroupResultView, b: TestGroupResultView)
    requires
        a.name == b.name,
        a.results.to_multiset() == b.results.to_multiset(),
    ensures
        a.success() == b.success(),
        a.rendered() == b.rendered(),
{
    let passes = |r: TestResultView| r.success;
    if a.success() {
        assert forall|i: int| 0 <= i < a.results.len() implies #[trigger] passes(
            a.results[i],
        ) by {
            assert(a.results[i].success);
        }
        lemma_same_items(a.results, b.results, passes);
        assert forall|i: int|
            0 <= i < b.results.len() implies (#[trigger] b.results[i]).success by {
            assert(passes(b.results[i]));
        }
    }
    if b.success() {
        assert forall|i: int| 0 <= i < b.results.len() implies #[trigger] passes(
            b.results[i],
        ) by {
            assert(b.results[i].success);
        }
        lemma_same_items(b.results, a.results, passes);
        assert forall|i: int|
            0 <= i < a.results.len() implies (#[trigger] a.results[i]).success by {
            assert(passes(a.results[i]));
        }
    }
    lemma_result_order_total();
    lemma_sorted_ignores_arrival(a.results, b.results, result_order());
}

/// The report of a run does not show in which order its suites finished: two runs that hold
/// the same suite results, each as often as the other, have the same report and the same exit
/// status.
pub proof fn lemma_report_ignores_arrival(a: Seq<TestSuiteResultView>, b: Seq<TestSuiteResultView>)
    requires
        a.to_multiset() == b.to_multiset(),
    ensures
        report(a) == report(b),
        exit_status(a) == exit_status(b),
{
    let passes = |s: TestSuiteResultView| s.success();
    if all_successful(a) {
        assert forall|i: int| 0 <= i < a.len() implies #[trigger] passes(a[i]) by {
            assert(a[i].success());
        }
        lemma_same_items(a, b, passes);
        assert forall|i: int| 0 <= i < b.len() implies (#[trigger] b[i]).success() by {
            assert(passes(b[i]));
        }
    }
    if all_successful(b) {
        assert forall|i: int| 0 <= i < b.len() implies #[trigger] passes(b[i]) by {
            assert(b[i].success());
        }
        lemma_same_items(b, a, passes);
        assert forall|i: int| 0 <= i < a.len() implies (#[trigger] a[i]).success() by {
            assert(passes(a[i]));
        }
    }
    lemma_suite_order_total();
    lemma_sorted_ignores_arrival(a, b, suite_order());
}

/// Whether two group results have one name and hold the same test results, each as often as
/// the other
pub open spec fn same_tests(a: TestGroupResultView, b: TestGroupResultView) -> bool {
    a.name == b.name && a.results.to_multiset() == b.results.to_multiset()
}

/// Whether two suite results have one name and as many groups, and hold group by group the same
/// test results
pub open spec fn same_groups(a: TestSuiteResultView, b: TestSuiteResultView) -> bool {
    &&& a.name == b.name
    &&& a.results.len() == b.results.len()
    &&& forall|k: int|
        0 <= k < a.results.len() ==> same_tests(#[trigger] a.results[k], b.results[k])
}

/// Whether no two suite results have one name
pub open spec fn distinct_names(suites: Seq<TestSuiteResultView>) -> bool {
    forall|i: int, j: int|
        0 <= i < suites.len() && 0 <= j < suites.len() && i != j ==> (#[trigger] suites[i]).name
            != (#[trigger] suites[j]).name
}

proof fn lemma_same_group_blocks(a: Seq<TestGroupResultView>, b: Seq<TestGroupResultView>)
    requires
        a.len() == b.len(),
        forall|k: int| 0 <= k < a.len() ==> (#[trigger] a[k]).rendered() == b[k].rendered(),
    ensures
        group_blocks(a) == group_blocks(b),
    decreases a.len(),
{
    if a.len() > 0 {
        assert(a.last().rendered() == b.last().rendered());
        assert forall|k: int|
            0 <= k < a.drop_last().len() implies (#[trigger] a.drop_last()[k]).rendered()
            == b.drop_last()[k].rendered() by {
            assert(a[k].rendered() == b[k].rendered());
        }
        lemma_same_group_blocks(a.drop_last(), b.drop_last());
    }
}

proof fn lemma_same_suite_blocks(a: Seq<TestSuiteResultView>, b: Seq<TestSuiteResultView>)
    requires
        a.len() == b.len(),
        forall|k: int| 0 <= k < a.len() ==> (#[trigger] a[k]).rendered() == b[k].rendered(),
    ensures
        suite_blocks(a) == suite_blocks(b),
    decreases a.len(),
{
    if a.len() > 0 {
        assert(a.last().rendered() == b.last().rendered());
        assert forall|k: int|
            0 <= k < a.drop_last().len() implies (#[trigger] a.drop_last()[k]).rendered()
            == b.drop_last()[k].rendered() by {
            assert(a[k].rendered() == b[k].rendered());
        }
        lemma_same_suite_blocks(a.drop_last(), b.drop_last());
    }
}

/// The report of a suite does not show in which order the results of its tests arrived: two
/// suite results of one name that hold, group by group, the same test results are rendered
/// alike and agree on success.
pub proof fn lemma_suite_ignores_arrival(a: TestSuiteResultView, b: TestSuiteResultView)
    requires
        same_groups(a, b),
    ensures
        a.success() == b.success(),
        a.rendered() == b.rendered(),
{
    assert forall|k: int| 0 <= k < a.results.len() implies (#[trigger] a.results[k]).rendered()
        == b.results[k].rendered() && a.results[k].success() == b.results[k].success() by {
        assert(same_tests(a.results[k], b.results[k]));
        lemma_group_ignores_arrival(a.results[k], b.results[k]);
    }
    lemma_same_group_blocks(a.results, b.results);
    if a.success() {
        assert forall|k: int|
            0 <= k < b.results.len() implies (#[trigger] b.results[k]).success() by {
            assert(a.results[k].success());
        }
    }
    if b.success() {
        assert forall|k: int|
            0 <= k < a.results.len() implies (#[trigger] a.results[k]).success() by {
            assert(b.results[k].success());
        }
    }
}

/// A place of `suite` in `suites`
spec fn place(suites: Seq<TestSuiteResultView>, suite: TestSuiteResultView) -> int {
    choose|i: int| 0 <= i < suites.len() && suites[i] == suite
}

/// The report of a run does not show in which order the results of the tests arrived: two
/// runs whose suites are told apart by their names, and that hold suite by suite and group by
/// group the same test results, have the same report and the same exit status.
pub proof fn lemma_report_ignores_arrival_of_tests(
    a: Seq<TestSuiteResultView>,
    b: Seq<TestSuiteResultView>,
)
    requires
        a.len() == b.len(),
        forall|i: int| 0 <= i < a.len() ==> same_groups(#[trigger] a[i], b[i]),
        distinct_names(a),
    ensures
        report(a) == report(b),
        exit_status(a) == exit_status(b),
{
    let f = suite_order();
    let names = text_order();
    lemma_suite_order_total();
    lemma_text_order_total();
    lemma_sorted_is_arranged(a, f);
    let sa = sorted(a, f);
    a.to_multiset_ensures();
    b.to_multiset_ensures();
    sa.to_multiset_ensures();

    // suite by suite, the two runs show the same and agree on success
    assert forall|i: int| 0 <= i < a.len() implies (#[trigger] a[i]).rendered() == b[i].rendered()
        && a[i].success() == b[i].success() && a[i].name == b[i].name by {
        assert(same_groups(a[i], b[i]));
        lemma_suite_ignores_arrival(a[i], b[i]);
    }
    if all_successful(a) {
        assert forall|i: int| 0 <= i < b.len() implies (#[trigger] b[i]).success() by {
            assert(a[i].success());
        }
    }
    if all_successful(b) {
        assert forall|i: int| 0 <= i < a.len() implies (#[trigger] a[i]).success() by {
            assert(b[i].success());
        }
    }

    // names tell the suites apart, so no suite occurs twice, in either run and in any order
    assert(a.no_duplicates()) by {
        assert forall|i: int, j: int| 0 <= i < a.len() && 0 <= j < a.len() && i != j implies a[i]
            != a[j] by {
            assert(a[i].name != a[j].name);
        }
    }
    assert(b.no_duplicates()) by {
        assert forall|i: int, j: int| 0 <= i < b.len() && 0 <= j < b.len() && i != j implies b[i]
            != b[j] by {
            assert(a[i].name != a[j].name);
            assert(a[i].name == b[i].name && a[j].name == b[j].name);
        }
    }
    a.lemma_multiset_has_no_duplicates();
    sa.lemma_multiset_has_no_duplicates_conv();

    // the place in `a` of each suite of the sorted run, and the suites of `b` put in that order
    assert forall|k: int| 0 <= k < sa.len() implies 0 <= place(a, #[trigger] sa[k]) < a.len()
        && a[place(a, sa[k])] == sa[k] by {
        assert(sa.contains(sa[k]));
        assert(a.to_multiset().count(sa[k]) > 0);
        assert(a.contains(sa[k]));
    }
    let pb = Seq::new(sa.len(), |k: int| b[place(a, sa[k])]);
    assert forall|k: int, l: int| 0 <= k < sa.len() && 0 <= l < sa.len() && k != l implies place(
        a,
        #[trigger] sa[k],
    ) != place(a, #[trigger] sa[l]) by {
        assert(sa[k] != sa[l]);
    }

    // they are in order, because the names decide
    assert forall|k: int, l: int| 0 <= k < l < pb.len() implies #[trigger] at_most(f)(
        pb[k],
        pb[l],
    ) by {
        let x = sa[k];
        let y = sa[l];
        assert(at_most(f)(x, y));
        assert(place(a, sa[k]) != place(a, sa[l]));
        assert(a[place(a, sa[k])].name != a[place(a, sa[l])].name);
        assert(x.name != y.name);
        assert(names(x.name, y.name) is Same <==> x.name == y.name);
        assert(f(x, y) == names(x.name, y.name));
        assert(pb[k].name == x.name && pb[l].name == y.name);
        assert(f(pb[k], pb[l]) == names(x.name, y.name));
    }

    // and they are the suites of `b`, each once
    assert(pb.no_duplicates()) by {
        assert forall|k: int, l: int| 0 <= k < pb.len() && 0 <= l < pb.len() && k != l implies pb[k]
            != pb[l] by {
            assert(place(a, sa[k]) != place(a, sa[l]));
            assert(b[place(a, sa[k])] != b[place(a, sa[l])]);
        }
    }
    pb.to_multiset_ensures();
    pb.lemma_multiset_has_no_duplicates();
    b.lemma_multiset_has_no_duplicates();
    assert forall|v: TestSuiteResultView| pb.contains(v) <==> b.contains(v) by {
        if pb.contains(v) {
            let k = choose|k: int| 0 <= k < pb.len() && pb[k] == v;
            assert(b[place(a, sa[k])] == v);
        }
        if b.contains(v) {
            let i = choose|i: int| 0 <= i < b.len() && b[i] == v;
            assert(a.contains(a[i]));
            assert(sa.to_multiset().count(a[i]) > 0);
            assert(sa.contains(a[i]));
            let k = choose|k: int| 0 <= k < sa.len() && sa[k] == a[i];
            assert(a[place(a, sa[k])] == a[i]);
            assert(place(a, sa[k]) == i);
            assert(pb[k] == v);
        }
    }
    assert(pb.to_multiset() =~= b.to_multiset()) by {
        assert forall|v: TestSuiteResultView| pb.to_multiset().count(v) == b.to_multiset().count(
            v,
        ) by {
            assert(pb.contains(v) <==> b.contains(v));
            assert(pb.contains(v) <==> pb.to_multiset().count(v) > 0);
            assert(b.contains(v) <==> b.to_multiset().count(v) > 0);
            if pb.contains(v) {
                assert(pb.to_multiset().contains(v));
                assert(b.to_multiset().contains(v));
            }
        }
    }
    lemma_sorted_unique_arrangement(pb, b, f);

    // so the sorted runs show the same, suite by suite
    assert forall|k: int| 0 <= k < sa.len() implies (#[trigger] sa[k]).rendered()
        == pb[k].rendered() by {
        assert(a[place(a, sa[k])].rendered() == b[place(a, sa[k])].rendered());
    }
    lemma_same_suite_blocks(sa, pb);
}

} // verus!
