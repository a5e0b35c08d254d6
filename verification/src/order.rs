//! Three-way orders and their lexicographic lifting to sequences
//!
//! The report is stable because results are put in order by their content. This module holds the
//! vocabulary for that: what it means for a three-way comparison to be a total order, how such an
//! order on items gives one on sequences of items, and that a total order leaves exactly one way
//! to sort a collection.

use vstd::prelude::*;
use vstd::relations::sorted_by;
use vstd::relations::total_ordering;
use vstd::seq_lib::lemma_sorted_unique;

verus! {

/// Where a value stands relative to another
#[derive(Clone, Copy, Debug, PartialEq, Eq, Structural)]
pub enum Order {
    /// The value comes first
    Before,
    /// The two values are the same
    Same,
    /// The value comes last
    After,
}

impl Order {
    /// The order seen from the other value
    pub open spec fn reversed(self) -> Order {
        match self {
            Order::Before => Order::After,
            Order::Same => Order::Same,
            Order::After => Order::Before,
        }
    }

    /// This order, with ties broken by `next`
    pub open spec fn followed_by(self, next: Order) -> Order {
        if self is Same {
            next
        } else {
            self
        }
    }

    /// Break a tie with the outcome of the next comparison
    pub fn or(self, next: Order) -> (r: Order)
        ensures
            r == self.followed_by(next),
    {
        match self {
            Order::Same => next,
            _ => self,
        }
    }

    /// Whether the value comes first or the two are the same
    pub fn at_most(self) -> (r: bool)
        ensures
            r == !(self is After),
    {
        match self {
            Order::After => false,
            _ => true,
        }
    }
}

/// A three-way comparison that is a total order: only equal values compare as the same, swapping
/// the arguments reverses the outcome, and "not after" is transitive
pub open spec fn is_total_order<T>(f: spec_fn(T, T) -> Order) -> bool {
    &&& forall|a: T, b: T| (#[trigger] f(a, b) is Same) <==> a == b
    &&& forall|a: T, b: T| #[trigger] f(b, a) == f(a, b).reversed()
    &&& forall|a: T, b: T, c: T|
        !(#[trigger] f(a, b) is After) && !(#[trigger] f(b, c) is After) ==> !(f(a, c) is After)
}

/// The relation "comes first or is the same" of a three-way comparison
pub open spec fn at_most<T>(f: spec_fn(T, T) -> Order) -> spec_fn(T, T) -> bool {
    |a: T, b: T| !(f(a, b) is After)
}

/// The one arrangement of `items` in which no item stands before one that it comes after
pub open spec fn sorted<T>(items: Seq<T>, f: spec_fn(T, T) -> Order) -> Seq<T> {
    items.sort_by(at_most(f))
}

/// Lexicographic comparison of two sequences from position `i` on
pub open spec fn lexicographic_from<T>(
    f: spec_fn(T, T) -> Order,
    a: Seq<T>,
    b: Seq<T>,
    i: int,
) -> Order
    decreases a.len() - i,
{
    if i >= a.len() {
        if i >= b.len() {
            Order::Same
        } else {
            Order::Before
        }
    } else if i >= b.len() {
        Order::After
    } else if f(a[i], b[i]) is Same {
        lexicographic_from(f, a, b, i + 1)
    } else {
        f(a[i], b[i])
    }
}

/// The lexicographic order on sequences: the first position where two sequences differ decides,
/// and a sequence comes before each of its proper extensions
pub open spec fn lexicographic<T>(f: spec_fn(T, T) -> Order) -> spec_fn(Seq<T>, Seq<T>) -> Order {
    |a: Seq<T>, b: Seq<T>| lexicographic_from(f, a, b, 0)
}

/// The order of the unsigned integers, as a three-way comparison
pub open spec fn byte_order() -> spec_fn(u8, u8) -> Order {
    |a: u8, b: u8|
        if a < b {
            Order::Before
        } else if a == b {
            Order::Same
        } else {
            Order::After
        }
}

/// `false` comes before `true`
pub open spec fn bool_order() -> spec_fn(bool, bool) -> Order {
    |a: bool, b: bool|
        if a == b {
            Order::Same
        } else if b {
            Order::Before
        } else {
            Order::After
        }
}

/// Nothing comes before something; two values compare by `f`
pub open spec fn option_order<T>(f: spec_fn(T, T) -> Order) -> spec_fn(
    Option<T>,
    Option<T>,
) -> Order {
    |a: Option<T>, b: Option<T>|
        match (a, b) {
            (None, None) => Order::Same,
            (None, Some(_)) => Order::Before,
            (Some(_), None) => Order::After,
            (Some(x), Some(y)) => f(x, y),
        }
}

proof fn lemma_lexicographic_same<T>(f: spec_fn(T, T) -> Order, a: Seq<T>, b: Seq<T>, i: int)
    requires
        is_total_order(f),
        0 <= i,
    ensures
        lexicographic_from(f, a, b, i) is Same <==> (a.len() <= i && b.len() <= i) || (a.len()
            == b.len() && forall|j: int| i <= j < a.len() ==> a[j] == b[j]),
    decreases a.len() - i,
{
    if i < a.len() && i < b.len() {
        lemma_lexicographic_same(f, a, b, i + 1);
        if f(a[i], b[i]) is Same {
            assert(a[i] == b[i]);
        } else {
            assert(a[i] != b[i]);
        }
    }
}

proof fn lemma_lexicographic_reversed<T>(f: spec_fn(T, T) -> Order, a: Seq<T>, b: Seq<T>, i: int)
    requires
        is_total_order(f),
        0 <= i,
    ensures
        lexicographic_from(f, b, a, i) == lexicographic_from(f, a, b, i).reversed(),
    decreases a.len() - i,
{
    if i < a.len() && i < b.len() {
        lemma_lexicographic_reversed(f, a, b, i + 1);
        assert(f(b[i], a[i]) == f(a[i], b[i]).reversed());
    }
}

proof fn lemma_lexicographic_transitive<T>(
    f: spec_fn(T, T) -> Order,
    a: Seq<T>,
    b: Seq<T>,
    c: Seq<T>,
    i: int,
)
    requires
        is_total_order(f),
        0 <= i,
        !(lexicographic_from(f, a, b, i) is After),
        !(lexicographic_from(f, b, c, i) is After),
    ensures
        !(lexicographic_from(f, a, c, i) is After),
    decreases a.len() - i,
{
    if i < a.len() {
        // `a` has an item here, so `b` has one too, and then so has `c`
        assert(i < b.len());
        assert(i < c.len());
        let ab = f(a[i], b[i]);
        let bc = f(b[i], c[i]);
        let ac = f(a[i], c[i]);
        assert(!(ab is After) && !(bc is After));
        assert(!(ac is After));
        if ab is Same && bc is Same {
            assert(a[i] == c[i]);
            assert(ac is Same);
            lemma_lexicographic_transitive(f, a, b, c, i + 1);
        } else if ac is Same {
            // then `b[i]` would stand both before and after `a[i]`
            assert(a[i] == c[i]);
            assert(f(b[i], a[i]) == ab.reversed());
            assert(false);
        }
    }
}

/// The lexicographic lifting of a total order is a total order
pub proof fn lemma_lexicographic_total<T>(f: spec_fn(T, T) -> Order)
    requires
        is_total_order(f),
    ensures
        is_total_order(lexicographic(f)),
{
    let g = lexicographic(f);
    assert forall|a: Seq<T>, b: Seq<T>| (#[trigger] g(a, b) is Same) <==> a == b by {
        lemma_lexicographic_same(f, a, b, 0);
        if g(a, b) is Same {
            assert(a =~= b);
        }
    }
    assert forall|a: Seq<T>, b: Seq<T>| #[trigger] g(b, a) == g(a, b).reversed() by {
        lemma_lexicographic_reversed(f, a, b, 0);
    }
    assert forall|a: Seq<T>, b: Seq<T>, c: Seq<T>|
        !(#[trigger] g(a, b) is After) && !(#[trigger] g(b, c) is After) implies !(g(a, c)
        is After) by {
        lemma_lexicographic_transitive(f, a, b, c, 0);
    }
}

/// The order of the bytes is a total order
pub proof fn lemma_byte_order_total()
    ensures
        is_total_order(byte_order()),
{
}

/// The order of the truth values is a total order
pub proof fn lemma_bool_order_total()
    ensures
        is_total_order(bool_order()),
{
}

/// The order of optional values over a total order is a total order
pub proof fn lemma_option_order_total<T>(f: spec_fn(T, T) -> Order)
    requires
        is_total_order(f),
    ensures
        is_total_order(option_order(f)),
{
    let g = option_order(f);
    assert forall|a: Option<T>, b: Option<T>| (#[trigger] g(a, b) is Same) <==> a == b by {
        if a is Some && b is Some {
            assert(f(a->0, b->0) is Same <==> a->0 == b->0);
        }
    }
    assert forall|a: Option<T>, b: Option<T>| #[trigger] g(b, a) == g(a, b).reversed() by {
        if a is Some && b is Some {
            assert(f(b->0, a->0) == f(a->0, b->0).reversed());
        }
    }
    assert forall|a: Option<T>, b: Option<T>, c: Option<T>|
        !(#[trigger] g(a, b) is After) && !(#[trigger] g(b, c) is After) implies !(g(a, c)
        is After) by {
        if a is Some && b is Some && c is Some {
            assert(!(f(a->0, b->0) is After) && !(f(b->0, c->0) is After));
        }
    }
}

/// The order of pairs: the first parts decide, and the second parts break a tie
pub open spec fn paired<A, B>(f: spec_fn(A, A) -> Order, g: spec_fn(B, B) -> Order) -> spec_fn(
    (A, B),
    (A, B),
) -> Order {
    |a: (A, B), b: (A, B)| f(a.0, b.0).followed_by(g(a.1, b.1))
}

/// The order of values that goes by the order of their keys
pub open spec fn by_key<T, K>(key: spec_fn(T) -> K, h: spec_fn(K, K) -> Order) -> spec_fn(
    T,
    T,
) -> Order {
    |a: T, b: T| h(key(a), key(b))
}

/// The order of pairs over two total orders is a total order
pub proof fn lemma_paired_total<A, B>(f: spec_fn(A, A) -> Order, g: spec_fn(B, B) -> Order)
    requires
        is_total_order(f),
        is_total_order(g),
    ensures
        is_total_order(paired(f, g)),
{
    let p = paired(f, g);
    assert forall|a: (A, B), b: (A, B)| (#[trigger] p(a, b) is Same) <==> a == b by {
        assert(f(a.0, b.0) is Same <==> a.0 == b.0);
        assert(g(a.1, b.1) is Same <==> a.1 == b.1);
    }
    assert forall|a: (A, B), b: (A, B)| #[trigger] p(b, a) == p(a, b).reversed() by {
        assert(f(b.0, a.0) == f(a.0, b.0).reversed());
        assert(g(b.1, a.1) == g(a.1, b.1).reversed());
    }
    assert forall|a: (A, B), b: (A, B), c: (A, B)|
        !(#[trigger] p(a, b) is After) && !(#[trigger] p(b, c) is After) implies !(p(a, c)
        is After) by {
        let ab = f(a.0, b.0);
        let bc = f(b.0, c.0);
        let ac = f(a.0, c.0);
        assert(!(ab is After) && !(bc is After));
        assert(!(ac is After));
        assert(ab is Same <==> a.0 == b.0);
        assert(bc is Same <==> b.0 == c.0);
        assert(ac is Same <==> a.0 == c.0);
        if ac is Same {
            if ab is Same {
                assert(!(g(a.1, b.1) is After) && !(g(b.1, c.1) is After));
            } else {
                // then `b.0` would stand both after and before `a.0`
                assert(f(b.0, a.0) == ab.reversed());
                assert(false);
            }
        }
    }
}

/// Ordering values by keys that tell them apart is a total order where the order of the keys
/// is one
pub proof fn lemma_by_key_total<T, K>(key: spec_fn(T) -> K, h: spec_fn(K, K) -> Order)
    requires
        is_total_order(h),
        forall|a: T, b: T| #[trigger] key(a) == #[trigger] key(b) ==> a == b,
    ensures
        is_total_order(by_key(key, h)),
{
    let f = by_key(key, h);
    assert forall|a: T, b: T| (#[trigger] f(a, b) is Same) <==> a == b by {
        assert(h(key(a), key(b)) is Same <==> key(a) == key(b));
    }
    assert forall|a: T, b: T| #[trigger] f(b, a) == f(a, b).reversed() by {
        assert(h(key(b), key(a)) == h(key(a), key(b)).reversed());
    }
    assert forall|a: T, b: T, c: T|
        !(#[trigger] f(a, b) is After) && !(#[trigger] f(b, c) is After) implies !(f(a, c)
        is After) by {
        assert(!(h(key(a), key(b)) is After) && !(h(key(b), key(c)) is After));
    }
}

/// A comparison that agrees everywhere with a total order is a total order
pub proof fn lemma_same_order_total<T>(f: spec_fn(T, T) -> Order, g: spec_fn(T, T) -> Order)
    requires
        is_total_order(g),
        forall|a: T, b: T| #[trigger] f(a, b) == g(a, b),
    ensures
        is_total_order(f),
{
    assert forall|a: T, b: T| (#[trigger] f(a, b) is Same) <==> a == b by {
        assert(g(a, b) is Same <==> a == b);
    }
    assert forall|a: T, b: T| #[trigger] f(b, a) == f(a, b).reversed() by {
        assert(g(b, a) == g(a, b).reversed());
    }
    assert forall|a: T, b: T, c: T|
        !(#[trigger] f(a, b) is After) && !(#[trigger] f(b, c) is After) implies !(f(a, c)
        is After) by {
        assert(!(g(a, b) is After) && !(g(b, c) is After));
        assert(f(a, c) == g(a, c));
    }
}

/// "Comes first or is the same" under a total three-way order is a total ordering
pub proof fn lemma_at_most_total<T>(f: spec_fn(T, T) -> Order)
    requires
        is_total_order(f),
    ensures
        total_ordering(at_most(f)),
{
    let r = at_most(f);
    assert forall|x: T| #[trigger] r(x, x) by {
        assert(f(x, x) is Same);
    }
    assert forall|x: T, y: T| #[trigger] r(x, y) && #[trigger] r(y, x) implies x == y by {
        assert(f(y, x) == f(x, y).reversed());
        assert(f(x, y) is Same);
    }
    assert forall|x: T, y: T, z: T| #[trigger] r(x, y) && #[trigger] r(y, z) implies r(x, z) by {
        assert(!(f(x, y) is After) && !(f(y, z) is After));
    }
    assert forall|x: T, y: T| #[trigger] r(x, y) || #[trigger] r(y, x) by {
        assert(f(y, x) == f(x, y).reversed());
    }
}

/// Sorting arranges the items given, in order
pub proof fn lemma_sorted_is_arranged<T>(items: Seq<T>, f: spec_fn(T, T) -> Order)
    requires
        is_total_order(f),
    ensures
        sorted(items, f).to_multiset() == items.to_multiset(),
        sorted(items, f).len() == items.len(),
        sorted_by(sorted(items, f), at_most(f)),
{
    lemma_at_most_total(f);
    items.lemma_sort_by_ensures(at_most(f));
    items.to_multiset_ensures();
    sorted(items, f).to_multiset_ensures();
}

/// A sequence in order that holds the same items is the sorted one
pub proof fn lemma_sorted_unique_arrangement<T>(
    arranged: Seq<T>,
    items: Seq<T>,
    f: spec_fn(T, T) -> Order,
)
    requires
        is_total_order(f),
        sorted_by(arranged, at_most(f)),
        arranged.to_multiset() == items.to_multiset(),
    ensures
        arranged == sorted(items, f),
{
    lemma_at_most_total(f);
    lemma_sorted_is_arranged(items, f);
    lemma_sorted_unique(arranged, sorted(items, f), at_most(f));
}

/// The order in which items arrive does not show once they are sorted
pub proof fn lemma_sorted_ignores_arrival<T>(a: Seq<T>, b: Seq<T>, f: spec_fn(T, T) -> Order)
    requires
        is_total_order(f),
        a.to_multiset() == b.to_multiset(),
    ensures
        sorted(a, f) == sorted(b, f),
{
    lemma_sorted_is_arranged(a, f);
    lemma_sorted_unique_arrangement(sorted(a, f), b, f);
}

/// The views of the items of a sequence, one for one
pub open spec fn views<T: View>(items: Seq<T>) -> Seq<T::V> {
    items.map_values(|item: T| item@)
}

/// A type whose values stand in a total order that is a matter of their views alone
pub trait Compare: View + Sized {
    /// The order of the views
    spec fn order() -> spec_fn(Self::V, Self::V) -> Order;

    /// The order is a total one
    proof fn lemma_order_total()
        ensures
            is_total_order(Self::order()),
    ;

    /// Where this value stands relative to `other`
    fn compare(&self, other: &Self) -> (r: Order)
        ensures
            r == Self::order()(self@, other@),
    ;
}

/// Sort `items`: the values that went in come out, each before all that it comes before.
pub fn sort<T: Compare>(items: Vec<T>) -> (out: Vec<T>)
    ensures
        views(out@) == sorted(views(items@), T::order()),
{
    let ghost f = T::order();
    let ghost all = views(items@);
    let mut rest = items;
    let mut out: Vec<T> = Vec::new();
    proof {
        T::lemma_order_total();
        assert(views(out@) =~= Seq::<T::V>::empty());
        views(out@).to_multiset_ensures();
        assert(views(out@).to_multiset().add(views(rest@).to_multiset()) =~= all.to_multiset());
    }
    while rest.len() > 0
        invariant
            f == T::order(),
            is_total_order(f),
            sorted_by(views(out@), at_most(f)),
            views(out@).to_multiset().add(views(rest@).to_multiset()) == all.to_multiset(),
        decreases rest.len(),
    {
        let ghost rest_before = views(rest@);
        let ghost out_before = views(out@);
        let item = rest.pop().unwrap();
        let mut at: usize = 0;
        while at < out.len() && out[at].compare(&item).at_most()
            invariant
                at <= out.len(),
                f == T::order(),
                forall|k: int| 0 <= k < at ==> #[trigger] at_most(f)(out@[k]@, item@),
            decreases out.len() - at,
        {
            at += 1;
        }
        out.insert(at, item);
        proof {
            let placed = views(out@);
            assert(placed =~= out_before.insert(at as int, item@));
            assert(views(rest@) =~= rest_before.drop_last());
            assert(rest_before =~= views(rest@).push(item@));
            // what is held: one item moved from `rest` to `out`
            views(rest@).to_multiset_ensures();
            placed.to_multiset_ensures();
            assert(placed.remove(at as int) =~= out_before);
            assert(placed.to_multiset() =~= out_before.to_multiset().insert(item@));
            assert(placed.to_multiset().add(views(rest@).to_multiset()) =~= all.to_multiset());
            // what is held is still in order
            assert forall|i: int, j: int| 0 <= i < j < placed.len() implies #[trigger] at_most(f)(
                placed[i],
                placed[j],
            ) by {
                if j < at {
                    assert(at_most(f)(out_before[i], out_before[j]));
                } else if j == at {
                    assert(at_most(f)(out_before[i], item@));
                } else if i < at {
                    assert(at_most(f)(out_before[i], out_before[j - 1]));
                } else if i == at {
                    // the item stopped before the first value that comes after it
                    assert(at_most(f)(item@, out_before[at as int])) by {
                        assert(f(item@, out_before[at as int]) == f(
                            out_before[at as int],
                            item@,
                        ).reversed());
                    }
                    if j - 1 > at {
                        assert(at_most(f)(out_before[at as int], out_before[j - 1]));
                        assert(!(f(item@, out_before[at as int]) is After) && !(f(
                            out_before[at as int],
                            out_before[j - 1],
                        ) is After));
                    }
                } else {
                    assert(at_most(f)(out_before[i - 1], out_before[j - 1]));
                }
            }
        }
    }
    proof {
        assert(views(rest@) =~= Seq::<T::V>::empty());
        views(rest@).to_multiset_ensures();
        assert(views(out@).to_multiset() =~= all.to_multiset());
        lemma_sorted_unique_arrangement(views(out@), all, f);
    }
    out
}

/// Compare two sequences lexicographically
pub fn compare_sequences<T: Compare>(a: &Vec<T>, b: &Vec<T>) -> (r: Order)
    ensures
        r == lexicographic(T::order())(views(a@), views(b@)),
{
    let ghost f = T::order();
    let ghost x = views(a@);
    let ghost y = views(b@);
    let mut i: usize = 0;
    while i < a.len() && i < b.len()
        invariant
            i <= a.len(),
            i <= b.len(),
            f == T::order(),
            x == views(a@),
            y == views(b@),
            lexicographic_from(f, x, y, 0) == lexicographic_from(f, x, y, i as int),
        decreases a.len() - i,
    {
        let here = a[i].compare(&b[i]);
        match here {
            Order::Same => {},
            _ => {
                return here;
            },
        }
        i += 1;
    }
    if i < b.len() {
        Order::Before
    } else if i < a.len() {
        Order::After
    } else {
        Order::Same
    }
}

} // verus!
