//! Text primitives shared by the rest of the crate: comparing strings by
//! their UTF-8 bytes, rendering numbers in decimal, joining lists and
//! searching for a substring.

use vstd::prelude::*;
use vstd::string::*;
use vstd::utf8::*;

verus! {

/// A list of pairs of texts: names with their values, urls with their
/// cookies.
pub type Pairs = Seq<(Seq<char>, Seq<char>)>;

/// The texts of a list of pairs of strings.
pub open spec fn pairs_view(list: Seq<(String, String)>) -> Pairs {
    Seq::new(list.len(), |i: int| (list[i].0@, list[i].1@))
}

/// The text of an optional string.
pub open spec fn option_view(text: Option<String>) -> Option<Seq<char>> {
    match text {
        Some(s) => Some(s@),
        None => None,
    }
}

/// The UTF-8 bytes of a text.
pub open spec fn bytes_of(s: Seq<char>) -> Seq<u8> {
    encode_utf8(s)
}

/// Two texts with the same UTF-8 bytes are the same text.
pub proof fn lemma_bytes_determine_text(a: Seq<char>, b: Seq<char>)
    requires
        bytes_of(a) == bytes_of(b),
    ensures
        a == b,
{
    encode_utf8_decode_utf8(a);
    encode_utf8_decode_utf8(b);
}

/// Whether two strings hold the same text.
pub fn same_text(a: &str, b: &str) -> (r: bool)
    ensures
        r == (a@ == b@),
{
    let x = a.as_bytes();
    let y = b.as_bytes();
    if x.len() != y.len() {
        return false;
    }
    let mut i: usize = 0;
    while i < x.len()
        invariant
            i <= x.len(),
            x.len() == y.len(),
            x@ == bytes_of(a@),
            y@ == bytes_of(b@),
            forall|k: int| 0 <= k < i ==> x@[k] == y@[k],
        decreases x.len() - i,
    {
        if x[i] != y[i] {
            return false;
        }
        i += 1;
    }
    proof {
        assert(x@ =~= y@);
        lemma_bytes_determine_text(a@, b@);
    }
    true
}

/// Strict lexicographic order on byte sequences: at the first position
/// where the two differ the smaller byte decides, and a proper prefix comes
/// before what extends it.
pub open spec fn bytes_lt(a: Seq<u8>, b: Seq<u8>) -> bool
    decreases a.len(),
{
    if b.len() == 0 {
        false
    } else if a.len() == 0 {
        true
    } else if a[0] != b[0] {
        a[0] < b[0]
    } else {
        bytes_lt(a.drop_first(), b.drop_first())
    }
}

/// The order in which texts are kept and listed: lexicographic by UTF-8
/// bytes, which is the order of `str` itself.
pub open spec fn text_lt(a: Seq<char>, b: Seq<char>) -> bool {
    bytes_lt(bytes_of(a), bytes_of(b))
}

/// No byte sequence comes before itself.
pub proof fn lemma_bytes_lt_irreflexive(a: Seq<u8>)
    ensures
        !bytes_lt(a, a),
    decreases a.len(),
{
    if a.len() > 0 {
        lemma_bytes_lt_irreflexive(a.drop_first());
    }
}

/// Of two byte sequences exactly one holds: the first comes before the
/// second, they are equal, or the second comes before the first.
pub proof fn lemma_bytes_lt_total(a: Seq<u8>, b: Seq<u8>)
    ensures
        bytes_lt(a, b) || a == b || bytes_lt(b, a),
        !(bytes_lt(a, b) && bytes_lt(b, a)),
        !(bytes_lt(a, b) && a == b),
    decreases a.len(),
{
    lemma_bytes_lt_irreflexive(a);
    if a.len() == 0 || b.len() == 0 {
        if a.len() == 0 && b.len() == 0 {
            assert(a =~= b);
        }
    } else if a[0] == b[0] {
        lemma_bytes_lt_total(a.drop_first(), b.drop_first());
        if a.drop_first() == b.drop_first() {
            assert forall|i: int| 0 <= i < a.len() implies a[i] == b[i] by {
                if i > 0 {
                    assert(a[i] == a.drop_first()[i - 1]);
                    assert(b[i] == b.drop_first()[i - 1]);
                }
            }
            assert(a.len() == a.drop_first().len() + 1);
            assert(b.len() == b.drop_first().len() + 1);
            assert(a =~= b);
        }
    }
}

/// The order on byte sequences is transitive.
pub proof fn lemma_bytes_lt_transitive(a: Seq<u8>, b: Seq<u8>, c: Seq<u8>)
    requires
        bytes_lt(a, b),
        bytes_lt(b, c),
    ensures
        bytes_lt(a, c),
    decreases a.len(),
{
    if a.len() > 0 && a[0] == b[0] && b[0] == c[0] {
        lemma_bytes_lt_transitive(a.drop_first(), b.drop_first(), c.drop_first());
    }
}

/// Of two texts exactly one holds: the first comes before the second, they
/// are the same text, or the second comes before the first.
pub proof fn lemma_text_lt_total(a: Seq<char>, b: Seq<char>)
    ensures
        text_lt(a, b) || a == b || text_lt(b, a),
        !(text_lt(a, b) && text_lt(b, a)),
        !(text_lt(a, b) && a == b),
{
    lemma_bytes_lt_total(bytes_of(a), bytes_of(b));
    if bytes_of(a) == bytes_of(b) {
        lemma_bytes_determine_text(a, b);
    }
}

/// The order on texts is transitive.
pub proof fn lemma_text_lt_transitive(a: Seq<char>, b: Seq<char>, c: Seq<char>)
    requires
        text_lt(a, b),
        text_lt(b, c),
    ensures
        text_lt(a, c),
{
    lemma_bytes_lt_transitive(bytes_of(a), bytes_of(b), bytes_of(c));
}

proof fn lemma_bytes_lt_skip(a: Seq<u8>, b: Seq<u8>, i: int)
    requires
        0 <= i < a.len(),
        i < b.len(),
        a[i] == b[i],
    ensures
        bytes_lt(a.skip(i), b.skip(i)) == bytes_lt(a.skip(i + 1), b.skip(i + 1)),
{
    assert(a.skip(i).drop_first() =~= a.skip(i + 1));
    assert(b.skip(i).drop_first() =~= b.skip(i + 1));
}

/// Whether `a` comes before `b` in the order of texts.
pub fn precedes(a: &str, b: &str) -> (r: bool)
    ensures
        r == text_lt(a@, b@),
{
    let x = a.as_bytes();
    let y = b.as_bytes();
    let mut i: usize = 0;
    proof {
        assert(x@.skip(0) =~= x@);
        assert(y@.skip(0) =~= y@);
    }
    while i < x.len() && i < y.len()
        invariant
            i <= x.len(),
            i <= y.len(),
            x@ == bytes_of(a@),
            y@ == bytes_of(b@),
            bytes_lt(x@, y@) == bytes_lt(x@.skip(i as int), y@.skip(i as int)),
        decreases x.len() - i,
    {
        if x[i] != y[i] {
            return x[i] < y[i];
        }
        proof {
            lemma_bytes_lt_skip(x@, y@, i as int);
        }
        i += 1;
    }
    i < y.len()
}

/// The character of one decimal digit.
pub open spec fn digit(d: nat) -> char {
    if d == 0 {
        '0'
    } else if d == 1 {
        '1'
    } else if d == 2 {
        '2'
    } else if d == 3 {
        '3'
    } else if d == 4 {
        '4'
    } else if d == 5 {
        '5'
    } else if d == 6 {
        '6'
    } else if d == 7 {
        '7'
    } else if d == 8 {
        '8'
    } else {
        '9'
    }
}

/// A natural number in decimal, without sign and without leading zeros.
pub open spec fn decimal(n: nat) -> Seq<char>
    decreases n,
{
    if n < 10 {
        seq![digit(n)]
    } else {
        decimal(n / 10) + seq![digit(n % 10)]
    }
}

fn digit_text(d: u64) -> (r: &'static str)
    requires
        d < 10,
    ensures
        r@ == seq![digit(d as nat)],
{
    proof {
        reveal_strlit("0");
        reveal_strlit("1");
        reveal_strlit("2");
        reveal_strlit("3");
        reveal_strlit("4");
        reveal_strlit("5");
        reveal_strlit("6");
        reveal_strlit("7");
        reveal_strlit("8");
        reveal_strlit("9");
    }
    let r = if d == 0 {
        "0"
    } else if d == 1 {
        "1"
    } else if d == 2 {
        "2"
    } else if d == 3 {
        "3"
    } else if d == 4 {
        "4"
    } else if d == 5 {
        "5"
    } else if d == 6 {
        "6"
    } else if d == 7 {
        "7"
    } else if d == 8 {
        "8"
    } else {
        "9"
    };
    assert(r@ =~= seq![digit(d as nat)]);
    r
}

/// Writes a number in decimal.
pub fn decimal_text(n: u64) -> (r: String)
    ensures
        r@ == decimal(n as nat),
    decreases n,
{
    if n < 10 {
        String::from_str(digit_text(n))
    } else {
        let mut r = decimal_text(n / 10);
        r.append(digit_text(n % 10));
        r
    }
}

/// A number of hundredths as a decimal fraction with two places:
/// `fixed2(1234)` is `12.34` and `fixed2(5)` is `0.05`.
pub open spec fn fixed2(n: nat) -> Seq<char> {
    decimal(n / 100) + "."@ + seq![digit((n / 10) % 10)] + seq![digit(n % 10)]
}

/// Writes a number of hundredths as a decimal fraction with two places.
pub fn fixed2_text(n: u64) -> (r: String)
    ensures
        r@ == fixed2(n as nat),
{
    let mut r = decimal_text(n / 100);
    r.append(".");
    r.append(digit_text((n / 10) % 10));
    r.append(digit_text(n % 10));
    r
}

/// `true` or `false`, as `bool` prints.
pub open spec fn bool_word(b: bool) -> Seq<char> {
    if b {
        "true"@
    } else {
        "false"@
    }
}

/// Writes a `bool` as `true` or `false`.
pub fn bool_text(b: bool) -> (r: String)
    ensures
        r@ == bool_word(b),
{
    if b {
        String::from_str("true")
    } else {
        String::from_str("false")
    }
}

/// The items of a list written one after the other with `sep` between
/// neighbours; the empty list gives the empty text.
pub open spec fn joined(items: Seq<String>, sep: Seq<char>) -> Seq<char>
    decreases items.len(),
{
    if items.len() == 0 {
        Seq::empty()
    } else if items.len() == 1 {
        items[0]@
    } else {
        joined(items.drop_last(), sep) + sep + items.last()@
    }
}

/// Joins the items of a list with `sep` between neighbours.
pub fn join(items: &Vec<String>, sep: &str) -> (r: String)
    ensures
        r@ == joined(items@, sep@),
{
    let mut r = String::new();
    let mut i: usize = 0;
    while i < items.len()
        invariant
            i <= items.len(),
            r@ == joined(items@.take(i as int), sep@),
        decreases items.len() - i,
    {
        if i > 0 {
            r.append(sep);
        }
        r.append(items[i].as_str());
        proof {
            let grown = items@.take(i + 1);
            assert(grown.drop_last() =~= items@.take(i as int));
            assert(grown.last() == items@[i as int]);
            if i == 0 {
                assert(r@ =~= items@[0]@);
            }
        }
        i += 1;
    }
    proof {
        assert(items@.take(items.len() as int) =~= items@);
    }
    r
}

/// Whether `needle` occurs in `hay` as a run of neighbouring characters.
pub open spec fn occurs_in(needle: Seq<char>, hay: Seq<char>) -> bool {
    exists|i: int|
        0 <= i && i + needle.len() <= hay.len() && #[trigger] hay.subrange(i, i + needle.len())
            == needle
}

/// What occurs in a text occurs in every text that holds it between a head
/// and a tail.
pub proof fn lemma_occurs_in_middle(
    needle: Seq<char>,
    head: Seq<char>,
    hay: Seq<char>,
    tail: Seq<char>,
)
    requires
        occurs_in(needle, hay),
    ensures
        occurs_in(needle, head + hay + tail),
{
    let i = choose|i: int|
        0 <= i && i + needle.len() <= hay.len() && #[trigger] hay.subrange(i, i + needle.len())
            == needle;
    let whole = head + hay + tail;
    let j = head.len() + i;
    assert(whole.subrange(j, j + needle.len()) =~= hay.subrange(i, i + needle.len()));
}

/// Every text occurs in itself.
pub proof fn lemma_occurs_in_self(s: Seq<char>)
    ensures
        occurs_in(s, s),
{
    assert(s.subrange(0, 0 + s.len() as int) =~= s);
}

} // verus!
