//! Text building blocks: decimal numerals and amounts of money.

use vstd::prelude::*;
use vstd::string::*;

verus! {

/// The numeral of a single digit; empty outside `0..=9`.
pub open spec fn digit_text(d: int) -> Seq<char> {
    if d == 0 {
        "0"@
    } else if d == 1 {
        "1"@
    } else if d == 2 {
        "2"@
    } else if d == 3 {
        "3"@
    } else if d == 4 {
        "4"@
    } else if d == 5 {
        "5"@
    } else if d == 6 {
        "6"@
    } else if d == 7 {
        "7"@
    } else if d == 8 {
        "8"@
    } else if d == 9 {
        "9"@
    } else {
        Seq::empty()
    }
}

/// The decimal numeral of a natural number, without leading zeros.
pub open spec fn natural_text(n: nat) -> Seq<char>
    decreases n,
{
    if n < 10 {
        digit_text(n as int)
    } else {
        natural_text(n / 10) + digit_text((n % 10) as int)
    }
}

/// The decimal numeral of an integer, with a leading `-` when negative.
pub open spec fn decimal_text(n: int) -> Seq<char> {
    if n < 0 {
        "-"@ + natural_text((-n) as nat)
    } else {
        natural_text(n as nat)
    }
}

/// An amount in centavos as units, a point and two digits: `1234` is `12.34`.
pub open spec fn money_text(cents: int) -> Seq<char> {
    let magnitude: nat = if cents < 0 {
        (-cents) as nat
    } else {
        cents as nat
    };
    let sign: Seq<char> = if cents < 0 {
        "-"@
    } else {
        Seq::empty()
    };
    sign + natural_text(magnitude / 100) + "."@ + digit_text(((magnitude / 10) % 10) as int)
        + digit_text((magnitude % 10) as int)
}

/// The numeral of a single digit; empty outside `0..=9`.
pub fn digit_str(d: u128) -> (s: &'static str)
    ensures
        s@ == digit_text(d as int),
{
    if d == 0 {
        "0"
    } else if d == 1 {
        "1"
    } else if d == 2 {
        "2"
    } else if d == 3 {
        "3"
    } else if d == 4 {
        "4"
    } else if d == 5 {
        "5"
    } else if d == 6 {
        "6"
    } else if d == 7 {
        "7"
    } else if d == 8 {
        "8"
    } else if d == 9 {
        "9"
    } else {
        proof {
            reveal_strlit("");
        }
        assert(""@ =~= Seq::<char>::empty());
        ""
    }
}

/// Writes a natural number in decimal.
pub fn natural_to_string(n: u128) -> (s: String)
    ensures
        s@ == natural_text(n as nat),
    decreases n,
{
    if n < 10 {
        String::from_str(digit_str(n))
    } else {
        natural_to_string(n / 10).concat(digit_str(n % 10))
    }
}

fn magnitude(n: i128) -> (m: u128)
    ensures
        m == if n < 0 {
            -n
        } else {
            n as int
        },
{
    if n < 0 {
        let below: i128 = -(n + 1);
        below as u128 + 1
    } else {
        n as u128
    }
}

/// Writes an integer in decimal.
pub fn integer_to_string(n: i128) -> (s: String)
    ensures
        s@ == decimal_text(n as int),
{
    let digits: String = natural_to_string(magnitude(n));
    if n < 0 {
        String::from_str("-").concat(digits.as_str())
    } else {
        digits
    }
}

/// Writes an amount in centavos with two decimal places.
pub fn money_to_string(cents: i128) -> (s: String)
    ensures
        s@ == money_text(cents as int),
{
    let m: u128 = magnitude(cents);
    let units: String = natural_to_string(m / 100);
    let tail: String = units.concat(".").concat(digit_str((m / 10) % 10)).concat(
        digit_str(m % 10),
    );
    if cents < 0 {
        let r: String = String::from_str("-").concat(tail.as_str());
        assert(r@ =~= money_text(cents as int));
        r
    } else {
        assert(tail@ =~= money_text(cents as int));
        tail
    }
}

/// The bytes of a text in UTF-8.
pub open spec fn utf8(s: Seq<char>) -> Seq<u8> {
    vstd::utf8::encode_utf8(s)
}

/// `a` is not after `b` in the lexicographic order of bytes: at the first
/// place where they differ `a` has the smaller byte, or `a` ends first.
pub open spec fn bytes_precede(a: Seq<u8>, b: Seq<u8>) -> bool
    decreases a.len(),
{
    if a.len() == 0 {
        true
    } else if b.len() == 0 {
        false
    } else if a[0] != b[0] {
        a[0] < b[0]
    } else {
        bytes_precede(a.drop_first(), b.drop_first())
    }
}

/// Text `a` is not after text `b` when both are compared byte by byte in UTF-8.
pub open spec fn text_precedes(a: Seq<char>, b: Seq<char>) -> bool {
    bytes_precede(utf8(a), utf8(b))
}

/// `needle` stands in `hay` at position `at`.
pub open spec fn occurs_at(hay: Seq<u8>, needle: Seq<u8>, at: int) -> bool {
    0 <= at && at + needle.len() <= hay.len() && hay.subrange(at, at + needle.len()) == needle
}

/// `needle` stands somewhere in `hay`.
pub open spec fn occurs_in(hay: Seq<u8>, needle: Seq<u8>) -> bool {
    exists|at: int| occurs_at(hay, needle, at)
}

/// Text `part` is a substring of text `whole`.
pub open spec fn text_contains(whole: Seq<char>, part: Seq<char>) -> bool {
    occurs_in(utf8(whole), utf8(part))
}

/// Of two byte strings one is not after the other.
pub proof fn lemma_bytes_total(a: Seq<u8>, b: Seq<u8>)
    ensures
        bytes_precede(a, b) || bytes_precede(b, a),
    decreases a.len(),
{
    if a.len() > 0 && b.len() > 0 && a[0] == b[0] {
        lemma_bytes_total(a.drop_first(), b.drop_first());
    }
}

/// The order of byte strings is transitive.
pub proof fn lemma_bytes_transitive(a: Seq<u8>, b: Seq<u8>, c: Seq<u8>)
    requires
        bytes_precede(a, b),
        bytes_precede(b, c),
    ensures
        bytes_precede(a, c),
    decreases a.len(),
{
    if a.len() > 0 && a[0] == b[0] && b[0] == c[0] {
        lemma_bytes_transitive(a.drop_first(), b.drop_first(), c.drop_first());
    }
}

/// Whether `a` is not after `b`, byte by byte.
pub fn bytes_in_order(a: &[u8], b: &[u8]) -> (r: bool)
    ensures
        r == bytes_precede(a@, b@),
{
    let mut i: usize = 0;
    assert(a@.skip(0) =~= a@ && b@.skip(0) =~= b@);
    while i < a.len() && i < b.len() && a[i] == b[i]
        invariant
            i <= a.len(),
            i <= b.len(),
            bytes_precede(a@, b@) == bytes_precede(a@.skip(i as int), b@.skip(i as int)),
        decreases a.len() - i,
    {
        proof {
            assert(a@.skip(i as int).drop_first() =~= a@.skip(i + 1));
            assert(b@.skip(i as int).drop_first() =~= b@.skip(i + 1));
        }
        i = i + 1;
    }
    if i == a.len() {
        true
    } else if i == b.len() {
        false
    } else {
        a[i] < b[i]
    }
}

/// Whether text `a` is not after text `b`.
pub fn text_in_order(a: &str, b: &str) -> (r: bool)
    ensures
        r == text_precedes(a@, b@),
{
    bytes_in_order(a.as_bytes(), b.as_bytes())
}

/// Whether `needle` stands in `hay` at position `at`.
fn matches_at(hay: &[u8], needle: &[u8], at: usize) -> (r: bool)
    requires
        at + needle.len() <= hay.len(),
    ensures
        r == occurs_at(hay@, needle@, at as int),
{
    let mut k: usize = 0;
    while k < needle.len()
        invariant
            k <= needle.len(),
            at + needle.len() <= hay.len(),
            forall|j: int| 0 <= j < k ==> hay@[at + j] == needle@[j],
        decreases needle.len() - k,
    {
        if hay[at + k] != needle[k] {
            assert(hay@.subrange(at as int, at + needle.len())[k as int] != needle@[k as int]);
            return false;
        }
        k = k + 1;
    }
    assert(hay@.subrange(at as int, at + needle.len()) =~= needle@);
    true
}

/// Whether `needle` stands somewhere in `hay`.
pub fn bytes_contain(hay: &[u8], needle: &[u8]) -> (r: bool)
    ensures
        r == occurs_in(hay@, needle@),
{
    if needle.len() > hay.len() {
        return false;
    }
    let last: usize = hay.len() - needle.len();
    let mut at: usize = 0;
    loop
        invariant
            last == hay.len() - needle.len(),
            needle.len() <= hay.len(),
            at <= last,
            forall|p: int| 0 <= p < at ==> !occurs_at(hay@, needle@, p),
        decreases last - at,
    {
        if matches_at(hay, needle, at) {
            return true;
        }
        if at == last {
            return false;
        }
        at = at + 1;
    }
}

/// Whether text `part` is a substring of text `whole`.
pub fn text_has(whole: &str, part: &str) -> (r: bool)
    ensures
        r == text_contains(whole@, part@),
{
    bytes_contain(whole.as_bytes(), part.as_bytes())
}

/// Whether a text is exactly a given one.
pub fn text_is(s: &String, other: &str) -> (r: bool)
    ensures
        r == (s@ == other@),
{
    let t: String = String::from_str(other);
    *s == t
}

} // verus!
