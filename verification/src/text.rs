//! Text helpers used by key and name lookups and by error messages: comparison, joining, and
//! decimal formatting.
use vstd::prelude::*;

verus! {

/// Compares two string slices for equality.
///
/// Wraps `<str as PartialEq>::eq`, which std documents as comparing the two strings'
/// contents; the contract states that the answer is whether the character sequences are equal.
#[verifier::external_body]
pub(crate) fn str_eq(a: &str, b: &str) -> (equal: bool)
    ensures
        equal == (a@ == b@),
{
    a == b
}

/// The characters of `parts`, joined in order.
pub open spec fn joined_text(parts: Seq<&str>) -> Seq<char>
    decreases parts.len(),
{
    if parts.len() == 0 {
        Seq::empty()
    } else {
        joined_text(parts.drop_last()) + parts.last()@
    }
}

/// Joins text fragments in order.
///
/// Wraps `<[&str]>::concat`, which std documents as flattening the slice into one string;
/// the contract states that the result's characters are the fragments' characters in order.
#[verifier::external_body]
pub(crate) fn concat_text(parts: &[&str]) -> (text: String)
    ensures
        text@ == joined_text(parts@),
{
    parts.concat()
}

/// Copies `a` into an owned string.
pub(crate) fn text1(a: &str) -> (text: String)
    ensures
        text@ == a@,
{
    let parts: Vec<&str> = vec![a];
    proof {
        reveal_with_fuel(joined_text, 2);
        assert(parts@.drop_last() =~= Seq::<&str>::empty());
        assert(joined_text(parts@) =~= a@);
    }
    concat_text(parts.as_slice())
}

/// Joins `a` and `b`.
pub(crate) fn text2(a: &str, b: &str) -> (text: String)
    ensures
        text@ == a@ + b@,
{
    let parts: Vec<&str> = vec![a, b];
    proof {
        reveal_with_fuel(joined_text, 3);
        assert(parts@.drop_last() =~= seq![a]);
        assert(parts@.drop_last().drop_last() =~= Seq::<&str>::empty());
        assert(joined_text(parts@) =~= a@ + b@);
    }
    concat_text(parts.as_slice())
}

/// Joins `a`, `b`, and `c`.
pub(crate) fn text3(a: &str, b: &str, c: &str) -> (text: String)
    ensures
        text@ == a@ + b@ + c@,
{
    let parts: Vec<&str> = vec![a, b, c];
    proof {
        reveal_with_fuel(joined_text, 4);
        assert(parts@.drop_last() =~= seq![a, b]);
        assert(parts@.drop_last().drop_last() =~= seq![a]);
        assert(parts@.drop_last().drop_last().drop_last() =~= Seq::<&str>::empty());
        assert(joined_text(parts@) =~= a@ + b@ + c@);
    }
    concat_text(parts.as_slice())
}

/// Joins `a`, `b`, `c`, and `d`.
pub(crate) fn text4(a: &str, b: &str, c: &str, d: &str) -> (text: String)
    ensures
        text@ == a@ + b@ + c@ + d@,
{
    let parts: Vec<&str> = vec![a, b, c, d];
    proof {
        reveal_with_fuel(joined_text, 5);
        let s = parts@;
        assert(s.drop_last() =~= seq![a, b, c]);
        assert(s.drop_last().drop_last() =~= seq![a, b]);
        assert(s.drop_last().drop_last().drop_last() =~= seq![a]);
        assert(s.drop_last().drop_last().drop_last().drop_last() =~= Seq::<&str>::empty());
        assert(joined_text(s) =~= a@ + b@ + c@ + d@);
    }
    concat_text(parts.as_slice())
}

/// Joins `a`, `b`, `c`, `d`, and `e`.
pub(crate) fn text5(a: &str, b: &str, c: &str, d: &str, e: &str) -> (text: String)
    ensures
        text@ == a@ + b@ + c@ + d@ + e@,
{
    let parts: Vec<&str> = vec![a, b, c, d, e];
    proof {
        reveal_with_fuel(joined_text, 6);
        let s = parts@;
        assert(s.drop_last() =~= seq![a, b, c, d]);
        assert(s.drop_last().drop_last() =~= seq![a, b, c]);
        assert(s.drop_last().drop_last().drop_last() =~= seq![a, b]);
        assert(s.drop_last().drop_last().drop_last().drop_last() =~= seq![a]);
        assert(s.drop_last().drop_last().drop_last().drop_last().drop_last() =~= Seq::<&str>::empty());
        assert(joined_text(s) =~= a@ + b@ + c@ + d@ + e@);
    }
    concat_text(parts.as_slice())
}

/// The character for decimal digit `d`.
pub open spec fn digit_char(d: nat) -> char {
    ('0' as nat + d) as char
}

/// The decimal digits of `n`, most significant first, with no leading zeros.
pub open spec fn decimal_text(n: nat) -> Seq<char>
    decreases n,
{
    if n < 10 {
        seq![digit_char(n)]
    } else {
        decimal_text(n / 10).push(digit_char(n % 10))
    }
}

/// The decimal representation of `n`.
///
/// Wraps `<u64 as ToString>::to_string`, which std documents as formatting the integer in
/// decimal; the contract states that the result is `n`'s decimal digits.
#[verifier::external_body]
pub(crate) fn decimal(n: u64) -> (text: String)
    ensures
        text@ == decimal_text(n as nat),
{
    n.to_string()
}

/// The text `value` displays as.
///
/// Wraps `<T as ToString>::to_string`. The text is what the caller's `Display` impl writes, so
/// nothing is stated of it.
#[verifier::external_body]
pub(crate) fn display_text<T: std::fmt::Display>(value: &T) -> String {
    value.to_string()
}

/// The debug text of `value`.
///
/// Wraps the `Debug` formatting of `value`. The text is what the caller's `Debug` impl writes,
/// so nothing is stated of it.
#[verifier::external_body]
pub(crate) fn debug_text<T: std::fmt::Debug>(value: &T) -> String {
    format!("{value:?}")
}

/// `text` is `prefix` followed by some further text.
pub open spec fn text_extends(text: Seq<char>, prefix: Seq<char>) -> bool {
    exists|rest: Seq<char>| #[trigger] (prefix + rest) == text
}

/// The character view of an optional borrowed key.
pub open spec fn opt_str_view(key: Option<&str>) -> Option<Seq<char>> {
    match key {
        Some(k) => Some(k@),
        None => None,
    }
}

/// The character view of an optional owned key.
pub open spec fn opt_string_view(key: Option<String>) -> Option<Seq<char>> {
    match key {
        Some(k) => Some(k@),
        None => None,
    }
}

/// Copies an optional borrowed key into an owned one.
pub(crate) fn to_owned_key(key: Option<&str>) -> (owned: Option<String>)
    ensures
        opt_string_view(owned) == opt_str_view(key),
{
    match key {
        Some(k) => Some(k.to_owned()),
        None => None,
    }
}

/// Borrows an optional owned key.
pub(crate) fn as_key_ref(key: &Option<String>) -> (borrowed: Option<&str>)
    ensures
        opt_str_view(borrowed) == opt_string_view(*key),
{
    match key {
        Some(k) => Some(k.as_str()),
        None => None,
    }
}

} // verus!
