//! The result of a test

use vstd::prelude::*;
use vstd::string::StringExecFns;

use crate::order::bool_order;
use crate::order::by_key;
use crate::order::is_total_order;
use crate::order::lemma_bool_order_total;
use crate::order::lemma_by_key_total;
use crate::order::lemma_option_order_total;
use crate::order::lemma_paired_total;
use crate::order::lemma_same_order_total;
use crate::order::option_order;
use crate::order::paired;
use crate::order::Compare;
use crate::order::Order;
use crate::text::compare_text;
use crate::text::lemma_text_order_total;
use crate::text::optional_text;
use crate::text::text_order;

verus! {

/// The result of a test
///
/// This struct represents the result of a test. It contains the name of the test, whether it was
/// successful, and an optional message.
#[derive(Debug, PartialEq, Eq, PartialOrd, Ord, Hash)]
pub struct TestResult {
    /// The name of the test
    name: &'static str,
    /// Whether the test was successful
    success: bool,
    /// An optional message
    message: Option<String>,
}

/// What a test result says
pub struct TestResultView {
    /// The name of the test
    pub name: Seq<char>,
    /// Whether the test was successful
    pub success: bool,
    /// An optional message
    pub message: Option<Seq<char>>,
}

/// The glyph that marks success or failure in the report
pub open spec fn marker(success: bool) -> Seq<char> {
    if success {
        "✅"@
    } else {
        "❌"@
    }
}

/// The order of test results: by name, then failures before successes, then by message, where a
/// result without a message comes first
pub open spec fn result_order() -> spec_fn(TestResultView, TestResultView) -> Order {
    |a: TestResultView, b: TestResultView|
        text_order()(a.name, b.name).followed_by(bool_order()(a.success, b.success)).followed_by(
            option_order(text_order())(a.message, b.message),
        )
}

/// The order of test results is a total order
pub proof fn lemma_result_order_total()
    ensures
        is_total_order(result_order()),
{
    let key = |r: TestResultView| (r.name, (r.success, r.message));
    let rest = paired(bool_order(), option_order(text_order()));
    let whole = paired(text_order(), rest);
    lemma_text_order_total();
    lemma_bool_order_total();
    lemma_option_order_total(text_order());
    lemma_paired_total(bool_order(), option_order(text_order()));
    lemma_paired_total(text_order(), rest);
    assert forall|a: TestResultView, b: TestResultView| #[trigger] key(a) == #[trigger] key(
        b,
    ) implies a == b by {
        assert(a.name == b.name && a.success == b.success && a.message == b.message);
    }
    lemma_by_key_total(key, whole);
    assert forall|a: TestResultView, b: TestResultView| #[trigger]
        result_order()(a, b) == by_key(key, whole)(a, b) by {
        let by_name = text_order()(a.name, b.name);
        let by_success = bool_order()(a.success, b.success);
        let by_message = option_order(text_order())(a.message, b.message);
        assert(result_order()(a, b) == by_name.followed_by(by_success).followed_by(by_message));
        assert(rest((a.success, a.message), (b.success, b.message)) == by_success.followed_by(
            by_message,
        ));
        assert(whole(key(a), key(b)) == by_name.followed_by(
            by_success.followed_by(by_message),
        ));
    }
    lemma_same_order_total(result_order(), by_key(key, whole));
}

impl TestResultView {
    /// The line that the report shows for the result: the marker, the name and, where there is
    /// one, the message, with a space between them
    pub open spec fn rendered(self) -> Seq<char> {
        marker(self.success) + " "@ + self.name + match self.message {
            Some(message) => " "@ + message,
            None => Seq::empty(),
        }
    }
}

impl View for TestResult {
    type V = TestResultView;

    closed spec fn view(&self) -> TestResultView {
        TestResultView {
            name: self.name@,
            success: self.success,
            message: optional_text(self.message),
        }
    }
}

impl Clone for TestResult {
    fn clone(&self) -> (copy: Self)
        ensures
            copy@ == self@,
    {
        TestResult {
            name: self.name,
            success: self.success,
            message: match &self.message {
                Some(message) => Some(message.clone()),
                None => None,
            },
        }
    }
}

impl TestResult {
    /// The result of the test called `name`
    pub fn new(name: &'static str, success: bool, message: Option<String>) -> (result: Self)
        ensures
            result@ == (TestResultView { name: name@, success, message: optional_text(message) }),
    {
        TestResult { name, success, message }
    }

    /// The result of a test that found what it expected. It carries no message.
    pub fn passed(name: &'static str) -> (result: Self)
        ensures
            result@ == (TestResultView { name: name@, success: true, message: None }),
    {
        TestResult { name, success: true, message: None }
    }

    /// The result of a test that failed, with what went wrong
    pub fn failed(name: &'static str, message: String) -> (result: Self)
        ensures
            result@ == (TestResultView { name: name@, success: false, message: Some(message@) }),
    {
        TestResult { name, success: false, message: Some(message) }
    }

    /// The name of the test
    pub fn name(&self) -> (name: &'static str)
        ensures
            name@ == self@.name,
    {
        self.name
    }

    /// Whether the test was successful
    pub fn success(&self) -> (success: bool)
        ensures
            success == self@.success,
    {
        self.success
    }

    /// An optional message
    pub fn message(&self) -> (message: &Option<String>)
        ensures
            optional_text(*message) == self@.message,
    {
        &self.message
    }

    /// The line that the report shows for the result
    pub fn to_string(&self) -> (line: String)
        ensures
            line@ == self@.rendered(),
    {
        let emoji = if self.success {
            "✅"
        } else {
            "❌"
        };
        let mut display = String::from_str(emoji);
        display.append(" ");
        display.append(self.name);
        if let Some(message) = &self.message {
            display.append(" ");
            display.append(message.as_str());
        }
        display
    }
}

impl Compare for TestResult {
    open spec fn order() -> spec_fn(TestResultView, TestResultView) -> Order {
        result_order()
    }

    proof fn lemma_order_total() {
        lemma_result_order_total();
    }

    fn compare(&self, other: &Self) -> (r: Order) {
        let by_name = compare_text(self.name, other.name);
        let by_success = if self.success == other.success {
            Order::Same
        } else if other.success {
            Order::Before
        } else {
            Order::After
        };
        let by_message = match (&self.message, &other.message) {
            (None, None) => Order::Same,
            (None, Some(_)) => Order::Before,
            (Some(_), None) => Order::After,
            (Some(mine), Some(theirs)) => compare_text(mine.as_str(), theirs.as_str()),
        };
        by_name.or(by_success).or(by_message)
    }
}

} // verus!
