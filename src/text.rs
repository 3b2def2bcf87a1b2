//! Text helpers: decimal numerals and form encoding of query strings.
use vstd::prelude::*;
use vstd::utf8::*;

verus! {

/// The numeral of a digit value below ten.
pub open spec fn digit_char(d: nat) -> char {
    seq!['0', '1', '2', '3', '4', '5', '6', '7', '8', '9'][d as int]
}

/// Decimal numeral of a natural number, most significant digit first.
pub open spec fn decimal_nat(n: nat) -> Seq<char>
    decreases n,
{
    if n < 10 {
        seq![digit_char(n)]
    } else {
        decimal_nat(n / 10) + seq![digit_char(n % 10)]
    }
}

/// Decimal numeral of an integer, with a leading minus sign when negative.
pub open spec fn decimal(i: int) -> Seq<char> {
    if i < 0 {
        seq!['-'] + decimal_nat((-i) as nat)
    } else {
        decimal_nat(i as nat)
    }
}

/// Upper-case hexadecimal digit of a value below sixteen.
pub open spec fn hex_upper(d: int) -> char {
    seq!['0', '1', '2', '3', '4', '5', '6', '7', '8', '9', 'A', 'B', 'C', 'D', 'E', 'F'][d]
}

/// `%XX` for each byte, in upper-case hexadecimal.
pub open spec fn percent_bytes(b: Seq<u8>) -> Seq<char>
    decreases b.len(),
{
    if b.len() == 0 {
        seq![]
    } else {
        seq!['%', hex_upper(b[0] as int / 16), hex_upper(b[0] as int % 16)] + percent_bytes(b.drop_first())
    }
}

/// Characters that form encoding leaves as they are.
pub open spec fn form_unchanged(c: char) -> bool {
    ('0' <= c && c <= '9') || ('A' <= c && c <= 'Z') || ('a' <= c && c <= 'z') || c == '*'
        || c == '-' || c == '.' || c == '_'
}

/// The `application/x-www-form-urlencoded` form of one character: kept, a
/// space as `+`, anything else as its UTF-8 bytes percent-encoded.
pub open spec fn form_char(c: char) -> Seq<char> {
    if form_unchanged(c) {
        seq![c]
    } else if c == ' ' {
        seq!['+']
    } else {
        percent_bytes(encode_utf8(seq![c]))
    }
}

/// The form encoding of a text, character by character.
pub open spec fn form_text(s: Seq<char>) -> Seq<char>
    decreases s.len(),
{
    if s.len() == 0 {
        seq![]
    } else {
        form_text(s.drop_last()) + form_char(s.last())
    }
}

/// One `key=value` item of a query string.
pub open spec fn form_pair(p: (Seq<char>, Seq<char>)) -> Seq<char> {
    form_text(p.0) + seq!['='] + form_text(p.1)
}

/// A whole query string: the items of the pairs, in order, joined by `&`.
pub open spec fn form_pairs(ps: Seq<(Seq<char>, Seq<char>)>) -> Seq<char>
    decreases ps.len(),
{
    if ps.len() == 0 {
        seq![]
    } else if ps.len() == 1 {
        form_pair(ps[0])
    } else {
        form_pairs(ps.drop_last()) + seq!['&'] + form_pair(ps.last())
    }
}

/// The pairs of strings as pairs of texts.
pub open spec fn pair_views(v: Seq<(String, String)>) -> Seq<(Seq<char>, Seq<char>)> {
    v.map_values(|p: (String, String)| (p.0@, p.1@))
}

/// Text made of characters that form encoding keeps is its own encoding.
pub proof fn lemma_form_text_unchanged(s: Seq<char>)
    requires
        forall|i: int| 0 <= i < s.len() ==> form_unchanged(#[trigger] s[i]),
    ensures
        form_text(s) == s,
    decreases s.len(),
{
    if s.len() > 0 {
        lemma_form_text_unchanged(s.drop_last());
        assert(s.drop_last().push(s.last()) =~= s);
    }
}

proof fn lemma_digit_char(d: nat)
    requires
        d < 10,
    ensures
        '0' <= digit_char(d) && digit_char(d) <= '9',
{
    let t = seq!['0', '1', '2', '3', '4', '5', '6', '7', '8', '9'];
    assert(t[0] == '0' && t[1] == '1' && t[2] == '2' && t[3] == '3' && t[4] == '4');
    assert(t[5] == '5' && t[6] == '6' && t[7] == '7' && t[8] == '8' && t[9] == '9');
}

/// Every character of a decimal numeral is a digit.
pub proof fn lemma_decimal_nat_digits(n: nat)
    ensures
        forall|i: int|
            0 <= i < decimal_nat(n).len() ==> '0' <= #[trigger] decimal_nat(n)[i] && decimal_nat(
                n,
            )[i] <= '9',
    decreases n,
{
    if n < 10 {
        lemma_digit_char(n);
    } else {
        lemma_decimal_nat_digits(n / 10);
        lemma_digit_char(n % 10);
        let s = decimal_nat(n);
        assert forall|i: int| 0 <= i < s.len() implies '0' <= #[trigger] s[i] && s[i] <= '9' by {
            if i < decimal_nat(n / 10).len() {
                assert(s[i] == decimal_nat(n / 10)[i]);
            }
        }
    }
}

/// A decimal numeral, minus sign included, is its own form encoding.
pub proof fn lemma_form_text_decimal(i: int)
    ensures
        form_text(decimal(i)) == decimal(i),
{
    let s = decimal(i);
    if i < 0 {
        lemma_decimal_nat_digits((-i) as nat);
        assert forall|j: int| 0 <= j < s.len() implies form_unchanged(#[trigger] s[j]) by {
            if j > 0 {
                assert(s[j] == decimal_nat((-i) as nat)[j - 1]);
            }
        }
    } else {
        lemma_decimal_nat_digits(i as nat);
    }
    lemma_form_text_unchanged(s);
}

/// Relies on `String::push`: the character is added at the end.
#[verifier::external_body]
pub(crate) fn push_char(s: String, c: char) -> (r: String)
    ensures
        r@ == s@.push(c),
{
    let mut r = s;
    r.push(c);
    r
}

/// Relies on `serde_urlencoded::to_string`: a sequence of string pairs is
/// written as `key=value` items joined by `&`, both sides form-encoded byte
/// by byte; string keys and values never make it fail.
#[verifier::external_body]
pub(crate) fn urlencode_pairs(pairs: &Vec<(String, String)>) -> (r: Option<String>)
    ensures
        r is Some,
        r->Some_0@ == form_pairs(pair_views(pairs@)),
{
    serde_urlencoded::to_string(pairs).ok()
}

fn digit(d: u32) -> (c: char)
    requires
        d < 10,
    ensures
        c == digit_char(d as nat),
{
    match d {
        0 => '0',
        1 => '1',
        2 => '2',
        3 => '3',
        4 => '4',
        5 => '5',
        6 => '6',
        7 => '7',
        8 => '8',
        _ => '9',
    }
}

fn push_decimal(s: String, n: u32) -> (r: String)
    ensures
        r@ == s@ + decimal_nat(n as nat),
    decreases n,
{
    let mut r = s;
    if n >= 10 {
        r = push_decimal(r, n / 10);
    }
    r = push_char(r, digit(n % 10));
    assert(r@ =~= s@ + decimal_nat(n as nat));
    r
}

/// The decimal numeral of `n`.
pub fn decimal_text(n: i32) -> (r: String)
    ensures
        r@ == decimal(n as int),
{
    let s = String::new();
    let s = if n < 0 {
        let m: u32 = (0i64 - n as i64) as u32;
        push_decimal(push_char(s, '-'), m)
    } else {
        push_decimal(s, n as u32)
    };
    assert(s@ =~= decimal(n as int));
    s
}

} // verus!
