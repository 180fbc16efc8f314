//! Searching, splitting and reading numbers in byte strings.

use vstd::prelude::*;
use vstd::slice::slice_subrange;

verus! {

/// Where the first `sep` of `s` stands, or the length of `s` where there is none.
pub open spec fn split_point(s: Seq<u8>, sep: u8) -> int
    decreases s.len(),
{
    if s.len() == 0 || s[0] == sep {
        0
    } else {
        1 + split_point(s.drop_first(), sep)
    }
}

/// The parts of `s` on both sides of its first `sep`.
pub open spec fn split_once_spec(s: Seq<u8>, sep: u8) -> Option<(Seq<u8>, Seq<u8>)> {
    let at = split_point(s, sep);
    if at < s.len() {
        Some((s.take(at), s.skip(at + 1)))
    } else {
        None
    }
}

/// The pieces of `s` between its separators; one more than there are separators.
pub open spec fn pieces(s: Seq<u8>, sep: u8) -> Seq<Seq<u8>>
    decreases s.len(),
{
    let at = split_point(s, sep);
    if 0 <= at < s.len() {
        seq![s.take(at)] + pieces(s.skip(at + 1), sep)
    } else {
        seq![s]
    }
}

/// Whether `s` begins with `prefix`.
pub open spec fn has_prefix(s: Seq<u8>, prefix: Seq<u8>) -> bool {
    prefix.len() <= s.len() && s.take(prefix.len() as int) == prefix
}

/// Whether `b` is an ASCII digit.
pub open spec fn is_digit(b: u8) -> bool {
    0x30 <= b <= 0x39
}

/// The number that a run of digits spells in base ten.
pub open spec fn digits_value(s: Seq<u8>) -> nat
    decreases s.len(),
{
    if s.len() == 0 {
        0
    } else {
        digits_value(s.drop_last()) * 10 + (s.last() - 0x30) as nat
    }
}

/// The digits of a number, without the one plus sign that may stand before them.
pub open spec fn unsigned_part(s: Seq<u8>) -> Seq<u8> {
    if s.len() > 0 && s[0] == 0x2b {
        s.skip(1)
    } else {
        s
    }
}

/// The number that `s` spells: an optional plus sign, then digits, at least one.
pub open spec fn decimal(s: Seq<u8>) -> Option<nat> {
    let digits = unsigned_part(s);
    if digits.len() > 0 && (forall|i: int| 0 <= i < digits.len() ==> is_digit(#[trigger] digits[i])) {
        Some(digits_value(digits))
    } else {
        None
    }
}

/// The number that `s` spells, where it is at most `max`.
pub open spec fn decimal_up_to(s: Seq<u8>, max: nat) -> Option<nat> {
    match decimal(s) {
        Some(n) if n <= max => Some(n),
        _ => None,
    }
}

/// A position with no separator before it, and one at it or the end, is the split point.
pub proof fn lemma_split_point_is(s: Seq<u8>, sep: u8, at: int)
    requires
        0 <= at <= s.len(),
        forall|j: int| 0 <= j < at ==> s[j] != sep,
        at == s.len() || s[at] == sep,
    ensures
        split_point(s, sep) == at,
    decreases s.len(),
{
    if at > 0 {
        assert(s[0] != sep);
        assert(forall|j: int| 0 <= j < at - 1 ==> s.drop_first()[j] == s[j + 1]);
        lemma_split_point_is(s.drop_first(), sep, at - 1);
    }
}

/// The split point lies within the string.
pub proof fn lemma_split_point_range(s: Seq<u8>, sep: u8)
    ensures
        0 <= split_point(s, sep) <= s.len(),
    decreases s.len(),
{
    if s.len() > 0 && s[0] != sep {
        lemma_split_point_range(s.drop_first(), sep);
    }
}

/// More digits never make a number smaller.
proof fn lemma_digits_grow(s: Seq<u8>, n: int)
    requires
        0 <= n <= s.len(),
    ensures
        digits_value(s.take(n)) <= digits_value(s),
    decreases s.len() - n,
{
    if n == s.len() {
        assert(s.take(n) =~= s);
    } else {
        assert(s.take(n + 1).drop_last() =~= s.take(n));
        lemma_digits_grow(s, n + 1);
    }
}

/// Finds the first `sep` of `s` at or after `start`.
pub fn find_byte(s: &[u8], start: usize, sep: u8) -> (res: usize)
    requires
        start <= s.len(),
    ensures
        start <= res <= s.len(),
        res == start + split_point(s@.skip(start as int), sep),
{
    let mut i: usize = start;
    while i < s.len() && s[i] != sep
        invariant
            start <= i <= s.len(),
            forall|j: int| start <= j < i ==> s[j] != sep,
        decreases s.len() - i,
    {
        i = i + 1;
    }
    proof {
        let rest = s@.skip(start as int);
        assert(forall|j: int| 0 <= j < i - start ==> rest[j] == s[start + j]);
        lemma_split_point_is(rest, sep, i - start);
    }
    i
}

/// Splits `s` at its first `sep`.
pub fn split_once<'a>(s: &'a [u8], sep: u8) -> (res: Option<(&'a [u8], &'a [u8])>)
    ensures
        res is Some <==> split_once_spec(s@, sep) is Some,
        res matches Some((left, right)) ==> split_once_spec(s@, sep) == Some((left@, right@)),
{
    let at = find_byte(s, 0, sep);
    proof {
        assert(s@.skip(0) =~= s@);
    }
    if at < s.len() {
        let left = slice_subrange(s, 0, at);
        let right = slice_subrange(s, at + 1, s.len());
        assert(left@ =~= s@.take(at as int));
        assert(right@ =~= s@.skip(at + 1));
        Some((left, right))
    } else {
        None
    }
}

/// Cuts `s` at every `sep`.
pub fn split<'a>(s: &'a [u8], sep: u8) -> (res: Vec<&'a [u8]>)
    ensures
        res@.map_values(|piece: &[u8]| piece@) == pieces(s@, sep),
{
    let mut res: Vec<&'a [u8]> = Vec::new();
    let mut start: usize = 0;
    let ghost view = |piece: &[u8]| piece@;
    assert(s@.skip(0) =~= s@);
    assert(res@.map_values(view) + pieces(s@, sep) =~= pieces(s@, sep));
    loop
        invariant
            start <= s.len(),
            view == (|piece: &[u8]| piece@),
            res@.map_values(view) + pieces(s@.skip(start as int), sep) == pieces(s@, sep),
        decreases s.len() - start,
    {
        let end = find_byte(s, start, sep);
        let piece = slice_subrange(s, start, end);
        let ghost rest = s@.skip(start as int);
        let ghost done = res@;
        res.push(piece);
        proof {
            assert(piece@ =~= rest.take(end - start));
            assert(res@.map_values(view) =~= done.map_values(view).push(piece@));
        }
        if end == s.len() {
            proof {
                assert(rest.take(end - start) =~= rest);
                assert(res@.map_values(view) =~= done.map_values(view) + seq![rest]);
            }
            return res;
        }
        proof {
            assert(rest.skip(end - start + 1) =~= s@.skip(end + 1));
            assert(res@.map_values(view) + pieces(s@.skip(end + 1), sep) =~= done.map_values(view)
                + (seq![piece@] + pieces(s@.skip(end + 1), sep)));
        }
        start = end + 1;
    }
}

/// Compares two byte strings.
pub fn same(a: &[u8], b: &[u8]) -> (res: bool)
    ensures
        res == (a@ == b@),
{
    if a.len() != b.len() {
        return false;
    }
    let mut i: usize = 0;
    while i < a.len()
        invariant
            a.len() == b.len(),
            i <= a.len(),
            forall|j: int| 0 <= j < i ==> a[j] == b[j],
        decreases a.len() - i,
    {
        if a[i] != b[i] {
            return false;
        }
        i = i + 1;
    }
    assert(a@ =~= b@);
    true
}

/// Tells whether `s` begins with `prefix`.
pub fn starts_with(s: &[u8], prefix: &[u8]) -> (res: bool)
    ensures
        res == has_prefix(s@, prefix@),
{
    if s.len() < prefix.len() {
        return false;
    }
    let head = slice_subrange(s, 0, prefix.len());
    assert(head@ =~= s@.take(prefix@.len() as int));
    same(head, prefix)
}

/// Reads a number no larger than `max`.
pub fn parse_decimal(s: &[u8], max: u64) -> (res: Option<u64>)
    ensures
        match res {
            Some(n) => decimal_up_to(s@, max as nat) == Some(n as nat),
            None => decimal_up_to(s@, max as nat) is None,
        },
{
    let start: usize = if s.len() > 0 && s[0] == 0x2b { 1 } else { 0 };
    let ghost digits = unsigned_part(s@);
    assert(digits =~= s@.skip(start as int));
    if start == s.len() {
        return None;
    }
    let mut value: u64 = 0;
    let mut i: usize = start;
    while i < s.len()
        invariant
            start <= i <= s.len(),
            start <= 1,
            digits == s@.skip(start as int),
            digits == unsigned_part(s@),
            forall|j: int| 0 <= j < i - start ==> is_digit(#[trigger] digits[j]),
            value == digits_value(digits.take(i - start)),
            value <= max,
        decreases s.len() - i,
    {
        let b = s[i];
        assert(b == digits[i - start]);
        if b < 0x30 || b > 0x39 {
            assert(!is_digit(digits[i - start]));
            return None;
        }
        let digit: u64 = (b - 0x30) as u64;
        proof {
            assert(digits.take(i - start + 1).drop_last() =~= digits.take(i - start));
            lemma_digits_grow(digits, i - start + 1);
        }
        if digit > max || value > (max - digit) / 10 {
            return None;
        }
        value = value * 10 + digit;
        i = i + 1;
    }
    assert(digits.take(s.len() - start) =~= digits);
    Some(value)
}

} // verus!
