//! Text as the checks handle it: its order, and searching and replacing in it

use vstd::prelude::*;
use vstd::string::StringExecFns;
use vstd::utf8::encode_utf8;
use vstd::utf8::encode_utf8_decode_utf8;

use crate::order::byte_order;
use crate::order::is_total_order;
use crate::order::lemma_byte_order_total;
use crate::order::lemma_lexicographic_total;
use crate::order::lexicographic;
use crate::order::lexicographic_from;
use crate::order::Order;

verus! {

/// The order of texts: that of their UTF-8 encodings, byte by byte, which is how the standard
/// library orders strings. It is not an alphabetical order.
pub open spec fn text_order() -> spec_fn(Seq<char>, Seq<char>) -> Order {
    |a: Seq<char>, b: Seq<char>| lexicographic(byte_order())(encode_utf8(a), encode_utf8(b))
}

/// The order of texts is a total order
pub proof fn lemma_text_order_total()
    ensures
        is_total_order(text_order()),
{
    let f = text_order();
    let g = lexicographic(byte_order());
    lemma_byte_order_total();
    lemma_lexicographic_total(byte_order());
    assert forall|a: Seq<char>, b: Seq<char>| (#[trigger] f(a, b) is Same) <==> a == b by {
        assert(g(encode_utf8(a), encode_utf8(b)) is Same <==> encode_utf8(a) == encode_utf8(b));
        encode_utf8_decode_utf8(a);
        encode_utf8_decode_utf8(b);
    }
    assert forall|a: Seq<char>, b: Seq<char>| #[trigger] f(b, a) == f(a, b).reversed() by {
        assert(g(encode_utf8(b), encode_utf8(a)) == g(encode_utf8(a), encode_utf8(b)).reversed());
    }
    assert forall|a: Seq<char>, b: Seq<char>, c: Seq<char>|
        !(#[trigger] f(a, b) is After) && !(#[trigger] f(b, c) is After) implies !(f(a, c)
        is After) by {
        assert(!(g(encode_utf8(a), encode_utf8(b)) is After) && !(g(
            encode_utf8(b),
            encode_utf8(c),
        ) is After));
    }
}

/// The view of an optional text
pub open spec fn optional_text(text: Option<String>) -> Option<Seq<char>> {
    match text {
        Some(t) => Some(t@),
        None => None,
    }
}

/// Compare two texts
pub fn compare_text(a: &str, b: &str) -> (r: Order)
    ensures
        r == text_order()(a@, b@),
{
    let x = a.as_bytes();
    let y = b.as_bytes();
    let ghost f = byte_order();
    let mut i: usize = 0;
    while i < x.len() && i < y.len()
        invariant
            i <= x.len(),
            i <= y.len(),
            f == byte_order(),
            x@ == encode_utf8(a@),
            y@ == encode_utf8(b@),
            lexicographic_from(f, x@, y@, 0) == lexicographic_from(f, x@, y@, i as int),
        decreases x.len() - i,
    {
        if x[i] < y[i] {
            return Order::Before;
        }
        if x[i] > y[i] {
            return Order::After;
        }
        i += 1;
    }
    if i < y.len() {
        Order::Before
    } else if i < x.len() {
        Order::After
    } else {
        Order::Same
    }
}

/// Whether two texts are the same
pub fn same_text(a: &str, b: &str) -> (r: bool)
    ensures
        r == (a@ == b@),
{
    proof {
        lemma_text_order_total();
    }
    match compare_text(a, b) {
        Order::Same => true,
        _ => false,
    }
}

/// Whether `needle` stands in `hay` from position `at` on
pub open spec fn stands_at(needle: Seq<char>, hay: Seq<char>, at: int) -> bool {
    0 <= at && at + needle.len() <= hay.len() && hay.subrange(at, at + needle.len()) == needle
}

/// Whether `needle` stands somewhere in `hay`, as one piece
pub open spec fn occurs_in(needle: Seq<char>, hay: Seq<char>) -> bool {
    exists|at: int| stands_at(needle, hay, at)
}

/// `text` with `to` in the place of each `from`
pub open spec fn replaced(text: Seq<char>, from: char, to: Seq<char>) -> Seq<char>
    decreases text.len(),
{
    if text.len() == 0 {
        Seq::empty()
    } else {
        replaced(text.drop_last(), from, to) + if text.last() == from {
            to
        } else {
            seq![text.last()]
        }
    }
}

/// The characters of a text
pub fn chars_of(text: &str) -> (out: Vec<char>)
    ensures
        out@ == text@,
{
    let mut out: Vec<char> = Vec::new();
    for c in it: text.chars()
        invariant
            out@ == it.seq().take(it.index() as int),
            it.seq() == text@,
    {
        out.push(c);
    }
    out
}

fn matches_at(hay: &Vec<char>, needle: &Vec<char>, at: usize) -> (r: bool)
    requires
        at + needle.len() <= hay.len(),
    ensures
        r == stands_at(needle@, hay@, at as int),
{
    let mut k: usize = 0;
    while k < needle.len()
        invariant
            k <= needle.len(),
            at + needle.len() <= hay.len(),
            forall|j: int| 0 <= j < k ==> hay@[at + j] == needle@[j],
        decreases needle.len() - k,
    {
        if hay[at + k] != needle[k] {
            assert(hay@.subrange(at as int, at + needle.len())[k as int] != needle@[k as int]);
            return false;
        }
        k += 1;
    }
    assert(hay@.subrange(at as int, at + needle.len()) =~= needle@);
    true
}

/// Whether `hay` contains `needle`
pub fn contains(hay: &str, needle: &str) -> (found: bool)
    ensures
        found == occurs_in(needle@, hay@),
{
    let h = chars_of(hay);
    let n = chars_of(needle);
    if n.len() > h.len() {
        return false;
    }
    let last: usize = h.len() - n.len();
    let mut i: usize = 0;
    loop
        invariant
            i <= last,
            last == h.len() - n.len(),
            h@ == hay@,
            n@ == needle@,
            forall|k: int| 0 <= k < i ==> !stands_at(n@, h@, k),
        decreases last - i,
    {
        if matches_at(&h, &n, i) {
            return true;
        }
        if i == last {
            return false;
        }
        i += 1;
    }
}

/// `String::push` of the standard library: one more character at the end of the text.
#[verifier::external_body]
fn push_char(text: &mut String, c: char)
    ensures
        final(text)@ == old(text)@.push(c),
{
    text.push(c)
}

/// `text` with `to` in the place of each `from`
pub fn replace(text: &str, from: char, to: &str) -> (out: String)
    ensures
        out@ == replaced(text@, from, to@),
{
    let mut out = String::new();
    for c in it: text.chars()
        invariant
            out@ == replaced(it.seq().take(it.index() as int), from, to@),
            it.seq() == text@,
    {
        let ghost before = it.seq().take(it.index() as int);
        let ghost after = it.seq().take(it.index() + 1);
        assert(after.drop_last() == before);
        assert(after.last() == c);
        if c == from {
            out.append(to);
        } else {
            push_char(&mut out, c);
        }
    }
    assert(text@.take(text@.len() as int) == text@);
    out
}

/// Two texts, one after the other
pub fn join2(a: &str, b: &str) -> (out: String)
    ensures
        out@ == a@ + b@,
{
    let mut out = String::from_str(a);
    out.append(b);
    out
}

/// Three texts, one after the other
pub fn join3(a: &str, b: &str, c: &str) -> (out: String)
    ensures
        out@ == a@ + b@ + c@,
{
    let mut out = String::from_str(a);
    out.append(b);
    out.append(c);
    out
}

/// Four texts, one after the other
pub fn join4(a: &str, b: &str, c: &str, d: &str) -> (out: String)
    ensures
        out@ == a@ + b@ + c@ + d@,
{
    let mut out = String::from_str(a);
    out.append(b);
    out.append(c);
    out.append(d);
    out
}

/// `count` spaces
pub open spec fn spaces(count: nat) -> Seq<char> {
    Seq::new(count, |i: int| ' ')
}

/// `text` from position `i` on, with `prefix` before each line that is not empty. A line ends
/// with a line feed, or with the text. A carriage return that stands right before a line feed
/// belongs to the end of the line and is dropped. `fresh` says whether position `i` starts a
/// line.
pub open spec fn indented_from(text: Seq<char>, prefix: Seq<char>, i: int, fresh: bool) -> Seq<
    char,
>
    decreases text.len() - i,
{
    if i < 0 || i >= text.len() {
        Seq::empty()
    } else if text[i] == '\n' {
        seq!['\n'] + indented_from(text, prefix, i + 1, true)
    } else if text[i] == '\r' && i + 1 < text.len() && text[i + 1] == '\n' {
        indented_from(text, prefix, i + 1, fresh)
    } else if fresh {
        prefix + seq![text[i]] + indented_from(text, prefix, i + 1, false)
    } else {
        seq![text[i]] + indented_from(text, prefix, i + 1, false)
    }
}

/// `text` with `prefix` before each line that is not empty
pub open spec fn indented(text: Seq<char>, prefix: Seq<char>) -> Seq<char> {
    indented_from(text, prefix, 0, true)
}

/// `indent_all_by` of the `indent` crate: every line that is not empty is indented by the given
/// number of spaces. The crate takes the lines as `str::lines` gives them and joins them with
/// line feeds, so a carriage return before a line feed is lost, and the text ends with a line
/// feed where it did before.
#[verifier::external_body]
pub(crate) fn indent_all_by(number_of_spaces: usize, text: &str) -> (out: String)
    requires
        number_of_spaces <= isize::MAX,
    ensures
        out@ == indented(text@, spaces(number_of_spaces as nat)),
{
    indent::indent_all_by(number_of_spaces, text)
}

} // verus!
