//! Shortening, rewriting and composing text.

use vstd::prelude::*;
use vstd::string::{StrSliceExecFns, StringExecFns};
use vstd::utf8::{encode_utf8, encode_scalar, is_char_boundary};

verus! {

/// `String::push` puts one character behind the others.
pub assume_specification[ String::push ](s: &mut String, ch: char)
    ensures
        final(s)@ == old(s)@.push(ch),
;

/// How many bytes `s` takes in UTF-8.
pub open spec fn byte_len(s: Seq<char>) -> nat {
    encode_utf8(s).len()
}

/// The longest prefix of `s` that takes at most `limit` bytes.
pub open spec fn fitting(s: Seq<char>, limit: int) -> Seq<char>
    decreases s.len(),
{
    if s.len() == 0 || encode_scalar(s[0] as u32).len() > limit {
        Seq::empty()
    } else {
        seq![s[0]] + fitting(s.drop_first(), limit - encode_scalar(s[0] as u32).len())
    }
}

/// `s` itself where it takes fewer than `len` bytes, else as much of it as leaves room for
/// `ellipsis` within `len` bytes, and `ellipsis`.
pub open spec fn truncated(s: Seq<char>, len: int, ellipsis: Seq<char>) -> Seq<char> {
    if byte_len(s) < len {
        s
    } else {
        fitting(s, len - byte_len(ellipsis)) + ellipsis
    }
}

/// The largest character boundary up to `limit` cuts off the longest prefix that fits.
proof fn lemma_fitting(s: Seq<char>, limit: int, cut: int)
    requires
        0 <= cut <= limit,
        is_char_boundary(encode_utf8(s), cut),
        forall|i: int| cut < i <= limit ==> !is_char_boundary(encode_utf8(s), i),
    ensures
        encode_utf8(fitting(s, limit)) == encode_utf8(s).take(cut),
    decreases s.len(),
{
    broadcast use vstd::utf8::encode_utf8_valid_utf8;

    let bytes = encode_utf8(s);
    if s.len() == 0 {
        assert(bytes.take(cut) =~= encode_utf8(fitting(s, limit)));
    } else {
        vstd::utf8::encode_utf8_first_scalar(s);
        let first = encode_scalar(s[0] as u32).len() as int;
        let rest = s.drop_first();
        assert(vstd::utf8::pop_first_scalar(bytes) =~= encode_utf8(rest));
        assert forall|i: int| i > 0 && i <= bytes.len() implies #[trigger] is_char_boundary(bytes, i)
            == is_char_boundary(encode_utf8(rest), i - first) by {
        }
        if first > limit {
            assert(cut == 0);
            assert(bytes.take(0) =~= encode_utf8(fitting(s, limit)));
        } else {
            assert(is_char_boundary(encode_utf8(rest), 0));
            assert(is_char_boundary(bytes, first));
            assert(cut >= first);
            assert forall|i: int| cut - first < i <= limit - first implies !is_char_boundary(
                encode_utf8(rest),
                i,
            ) by {
                assert(!is_char_boundary(bytes, i + first));
                if i + first > bytes.len() {
                    assert(encode_utf8(rest).len() < i);
                }
            }
            lemma_fitting(rest, limit - first, cut - first);
            let kept = fitting(rest, limit - first);
            assert(fitting(s, limit).drop_first() =~= kept);
            assert(encode_utf8(fitting(s, limit)) =~= encode_scalar(s[0] as u32) + encode_utf8(kept));
            assert(bytes.take(cut) =~= encode_scalar(s[0] as u32) + encode_utf8(rest).take(cut - first));
        }
    }
}

/// What fits takes at most the bytes it was given.
pub proof fn lemma_fitting_fits(s: Seq<char>, limit: int)
    requires
        limit >= 0,
    ensures
        byte_len(fitting(s, limit)) <= limit,
    decreases s.len(),
{
    if s.len() > 0 && encode_scalar(s[0] as u32).len() <= limit {
        let first = encode_scalar(s[0] as u32).len() as int;
        lemma_fitting_fits(s.drop_first(), limit - first);
        assert(fitting(s, limit).drop_first() =~= fitting(s.drop_first(), limit - first));
    }
}

/// What fits is a prefix of the text.
pub proof fn lemma_fitting_is_prefix(s: Seq<char>, limit: int)
    ensures
        fitting(s, limit).is_prefix_of(s),
    decreases s.len(),
{
    if s.len() > 0 && encode_scalar(s[0] as u32).len() <= limit {
        let first = encode_scalar(s[0] as u32).len() as int;
        lemma_fitting_is_prefix(s.drop_first(), limit - first);
        let kept = fitting(s.drop_first(), limit - first);
        assert(fitting(s, limit) =~= s.take(kept.len() as int + 1)) by {
            assert(kept =~= s.drop_first().take(kept.len() as int));
        }
    }
}

/// The encoding of two texts, one behind the other.
pub proof fn lemma_encode_concat(a: Seq<char>, b: Seq<char>)
    ensures
        encode_utf8(a + b) == encode_utf8(a) + encode_utf8(b),
    decreases a.len(),
{
    if a.len() == 0 {
        assert(a + b =~= b);
        assert(encode_utf8(a) + encode_utf8(b) =~= encode_utf8(b));
    } else {
        lemma_encode_concat(a.drop_first(), b);
        assert((a + b).drop_first() =~= a.drop_first() + b);
        assert(encode_utf8(a + b) =~= encode_utf8(a) + encode_utf8(b));
    }
}

/// A shortened text never takes more bytes than it was allowed.
pub proof fn law_truncated_fits(s: Seq<char>, len: int, ellipsis: Seq<char>)
    requires
        byte_len(ellipsis) <= len,
    ensures
        byte_len(truncated(s, len, ellipsis)) <= len,
{
    if byte_len(s) >= len {
        let limit = len - byte_len(ellipsis);
        lemma_fitting_fits(s, limit);
        lemma_encode_concat(fitting(s, limit), ellipsis);
    }
}

/// A shortened text is the whole text, or a prefix of it and the ellipsis.
pub proof fn law_truncated_keeps_a_prefix(s: Seq<char>, len: int, ellipsis: Seq<char>)
    ensures
        truncated(s, len, ellipsis) == s || exists|n: int|
            0 <= n <= s.len() && truncated(s, len, ellipsis) == #[trigger] s.take(n) + ellipsis,
{
    if byte_len(s) >= len {
        let limit = len - byte_len(ellipsis);
        lemma_fitting_is_prefix(s, limit);
        let n = fitting(s, limit).len() as int;
        assert(fitting(s, limit) =~= s.take(n));
    }
}

/// What fits falls short of the bytes it was given by less than one character.
proof fn lemma_fitting_nearly_fills(s: Seq<char>, limit: int)
    requires
        0 <= limit <= byte_len(s),
    ensures
        byte_len(fitting(s, limit)) + 3 >= limit,
    decreases s.len(),
{
    if s.len() > 0 {
        let first = encode_scalar(s[0] as u32).len() as int;
        assert(byte_len(s) == first + byte_len(s.drop_first()));
        if first <= limit {
            lemma_fitting_nearly_fills(s.drop_first(), limit - first);
            assert(fitting(s, limit).drop_first() =~= fitting(s.drop_first(), limit - first));
        }
    }
}

/// What takes exactly the bytes it was given is what fits, whatever stands behind.
proof fn lemma_fitting_exactly(head: Seq<char>, tail: Seq<char>)
    ensures
        fitting(head + tail, byte_len(head) as int) == head,
    decreases head.len(),
{
    let whole = head + tail;
    let limit = byte_len(head) as int;
    if head.len() > 0 {
        let first = encode_scalar(head[0] as u32).len() as int;
        assert(byte_len(head) == first + byte_len(head.drop_first()));
        assert(whole.drop_first() =~= head.drop_first() + tail);
        lemma_fitting_exactly(head.drop_first(), tail);
        assert(seq![head[0]] + head.drop_first() =~= head);
    } else {
        assert(fitting(whole, limit) =~= head);
    }
}

/// A text that was shortened is at most three bytes short of what it was allowed.
pub proof fn law_truncated_nearly_fills(s: Seq<char>, len: int, ellipsis: Seq<char>)
    requires
        byte_len(s) >= len,
        byte_len(ellipsis) <= len,
    ensures
        byte_len(truncated(s, len, ellipsis)) + 3 >= len,
{
    let limit = len - byte_len(ellipsis);
    lemma_fitting_nearly_fills(s, limit);
    lemma_encode_concat(fitting(s, limit), ellipsis);
}

/// Shortening a text again changes nothing.
pub proof fn law_truncated_twice(s: Seq<char>, len: int, ellipsis: Seq<char>)
    requires
        byte_len(s) >= len ==> byte_len(ellipsis) <= len,
    ensures
        truncated(truncated(s, len, ellipsis), len, ellipsis) == truncated(s, len, ellipsis),
{
    if byte_len(s) >= len {
        let limit = len - byte_len(ellipsis);
        let head = fitting(s, limit);
        lemma_fitting_fits(s, limit);
        lemma_encode_concat(head, ellipsis);
        if byte_len(head) == limit {
            lemma_fitting_exactly(head, ellipsis);
        }
    }
}

/// Shortens `s` to `len` bytes, the last of them `ellipsis`, unless it is shorter than that
/// already. Characters stay whole.
pub fn truncate(s: String, len: usize, ellipsis: &str) -> (res: String)
    requires
        byte_len(s@) >= len ==> byte_len(ellipsis@) <= len,
    ensures
        res@ == truncated(s@, len as int, ellipsis@),
{
    let size = s.as_str().as_bytes().len();
    if size < len {
        return s;
    }
    let limit: usize = len - ellipsis.as_bytes().len();
    let mut cut: usize = limit;
    proof {
        broadcast use vstd::utf8::encode_utf8_valid_utf8;
        assert(is_char_boundary(encode_utf8(s@), 0));
    }
    while !s.as_str().is_char_boundary(cut)
        invariant
            cut <= limit,
            is_char_boundary(encode_utf8(s@), 0),
            forall|i: int| cut < i <= limit ==> !is_char_boundary(encode_utf8(s@), i),
        decreases cut,
    {
        cut = cut - 1;
    }
    let (head, _) = s.as_str().split_at(cut);
    proof {
        broadcast use vstd::utf8::encode_utf8_decode_utf8;
        lemma_fitting(s@, limit as int, cut as int);
        assert(encode_utf8(head@) =~= encode_utf8(s@).take(cut as int));
        assert(vstd::utf8::decode_utf8(encode_utf8(head@)) == head@);
        assert(vstd::utf8::decode_utf8(encode_utf8(fitting(s@, limit as int))) == fitting(s@, limit as int));
    }
    let mut res = head.to_owned();
    res.append(ellipsis);
    res
}

/// `s` with `to` in place of every `from`.
pub open spec fn char_replaced(s: Seq<char>, from: char, to: Seq<char>) -> Seq<char>
    decreases s.len(),
{
    if s.len() == 0 {
        Seq::empty()
    } else if s.last() == from {
        char_replaced(s.drop_last(), from, to) + to
    } else {
        char_replaced(s.drop_last(), from, to).push(s.last())
    }
}

/// The characters of a text.
pub fn chars(s: &str) -> (res: Vec<char>)
    ensures
        res@ == s@,
{
    let mut res: Vec<char> = Vec::new();
    for c in it: s.chars()
        invariant
            it.seq() == s@,
            res@ == s@.take(it.index()),
    {
        res.push(c);
        assert(s@.take(it.index() + 1) =~= s@.take(it.index()).push(c));
    }
    assert(s@.take(s@.len() as int) =~= s@);
    res
}

/// Puts `to` in place of every `from`.
pub fn replace_char(s: &str, from: char, to: &str) -> (res: String)
    ensures
        res@ == char_replaced(s@, from, to@),
{
    let mut res = String::new();
    let source = chars(s);
    let mut i: usize = 0;
    while i < source.len()
        invariant
            i <= source.len(),
            source@ == s@,
            res@ == char_replaced(s@.take(i as int), from, to@),
        decreases source.len() - i,
    {
        assert(s@.take(i + 1).drop_last() =~= s@.take(i as int));
        if source[i] == from {
            res.append(to);
        } else {
            res.push(source[i]);
        }
        i = i + 1;
    }
    assert(s@.take(source.len() as int) =~= s@);
    res
}

/// No `from` is left where none is in what takes its place.
pub proof fn law_replaced_char_is_gone(s: Seq<char>, from: char, to: Seq<char>)
    requires
        !to.contains(from),
    ensures
        !char_replaced(s, from, to).contains(from),
    decreases s.len(),
{
    if s.len() > 0 {
        law_replaced_char_is_gone(s.drop_last(), from, to);
        let head = char_replaced(s.drop_last(), from, to);
        let whole = char_replaced(s, from, to);
        assert forall|i: int| 0 <= i < whole.len() implies whole[i] != from by {
            if i < head.len() {
                assert(head[i] == whole[i]);
                assert(head.contains(head[i]));
            } else if s.last() == from {
                assert(to[i - head.len()] == whole[i]);
                assert(to.contains(to[i - head.len()]));
            }
        }
    }
}

/// Whether `s` begins with `prefix`.
pub open spec fn begins(s: Seq<char>, prefix: Seq<char>) -> bool {
    prefix.len() <= s.len() && s.take(prefix.len() as int) == prefix
}

/// `s` with `to` in place of every `from`, found from left to right without overlap.
pub open spec fn replaced(s: Seq<char>, from: Seq<char>, to: Seq<char>) -> Seq<char>
    decreases s.len(),
{
    if s.len() == 0 || from.len() == 0 {
        s
    } else if begins(s, from) {
        to + replaced(s.skip(from.len() as int), from, to)
    } else {
        seq![s[0]] + replaced(s.drop_first(), from, to)
    }
}

/// A text in which `from` does not occur stays as it is.
pub proof fn law_nothing_to_replace(s: Seq<char>, from: Seq<char>, to: Seq<char>)
    requires
        forall|i: int| 0 <= i <= s.len() ==> !begins(#[trigger] s.skip(i), from),
    ensures
        replaced(s, from, to) == s,
    decreases s.len(),
{
    if s.len() > 0 && from.len() > 0 {
        let rest = s.drop_first();
        assert(s.skip(0) =~= s);
        assert forall|i: int| 0 <= i <= rest.len() implies !begins(#[trigger] rest.skip(i), from) by {
            assert(rest.skip(i) =~= s.skip(i + 1));
        }
        law_nothing_to_replace(rest, from, to);
        assert(seq![s[0]] + rest =~= s);
    }
}

/// Whether `pattern` stands in `s` at `at`.
fn occurs_at(s: &Vec<char>, at: usize, pattern: &Vec<char>) -> (res: bool)
    requires
        at <= s.len(),
    ensures
        res == begins(s@.skip(at as int), pattern@),
{
    if s.len() - at < pattern.len() {
        return false;
    }
    let mut i: usize = 0;
    let ghost head = s@.skip(at as int).take(pattern@.len() as int);
    while i < pattern.len()
        invariant
            at + pattern.len() <= s.len(),
            i <= pattern.len(),
            head == s@.skip(at as int).take(pattern@.len() as int),
            forall|j: int| 0 <= j < i ==> head[j] == pattern@[j],
        decreases pattern.len() - i,
    {
        if s[at + i] != pattern[i] {
            assert(head[i as int] != pattern@[i as int]);
            return false;
        }
        i = i + 1;
    }
    assert(head =~= pattern@);
    true
}

/// Puts `to` in place of every `from`.
pub fn replace_all(s: &str, from: &str, to: &str) -> (res: String)
    requires
        from@.len() > 0,
    ensures
        res@ == replaced(s@, from@, to@),
{
    let source = chars(s);
    let pattern = chars(from);
    let mut res = String::new();
    let mut i: usize = 0;
    assert(s@.skip(0) =~= s@);
    assert(res@ + replaced(s@, from@, to@) =~= replaced(s@, from@, to@));
    while i < source.len()
        invariant
            i <= source.len(),
            source@ == s@,
            pattern@ == from@,
            from@.len() > 0,
            res@ + replaced(s@.skip(i as int), from@, to@) == replaced(s@, from@, to@),
        decreases source.len() - i,
    {
        let ghost rest = s@.skip(i as int);
        let ghost before = res@;
        if occurs_at(&source, i, &pattern) {
            res.append(to);
            proof {
                assert(rest.skip(from@.len() as int) =~= s@.skip(i + from@.len()));
                assert(res@ + replaced(s@.skip(i + from@.len()), from@, to@) =~= before + (to@ + replaced(
                    s@.skip(i + from@.len()),
                    from@,
                    to@,
                )));
            }
            i = i + pattern.len();
        } else {
            res.push(source[i]);
            proof {
                assert(rest.drop_first() =~= s@.skip(i + 1));
                assert(res@ + replaced(s@.skip(i + 1), from@, to@) =~= before + (seq![rest[0]] + replaced(
                    s@.skip(i + 1),
                    from@,
                    to@,
                )));
            }
            i = i + 1;
        }
    }
    assert(s@.skip(source.len() as int) =~= Seq::<char>::empty());
    assert(res@ + Seq::<char>::empty() =~= res@);
    res
}

/// Whether `c` has the Unicode property White_Space.
pub open spec fn is_white(c: char) -> bool {
    let n = c as u32;
    ||| 0x9 <= n <= 0xd
    ||| n == 0x20
    ||| n == 0x85
    ||| n == 0xa0
    ||| n == 0x1680
    ||| 0x2000 <= n <= 0x200a
    ||| n == 0x2028
    ||| n == 0x2029
    ||| n == 0x202f
    ||| n == 0x205f
    ||| n == 0x3000
}

/// Tells whether `c` has the Unicode property White_Space.
pub fn white(c: char) -> (res: bool)
    ensures
        res == is_white(c),
{
    let n: u32 = c as u32;
    (0x9 <= n && n <= 0xd) || n == 0x20 || n == 0x85 || n == 0xa0 || n == 0x1680 || (0x2000 <= n && n
        <= 0x200a) || n == 0x2028 || n == 0x2029 || n == 0x202f || n == 0x205f || n == 0x3000
}

/// `s` without the white space at its end.
pub open spec fn end_trimmed(s: Seq<char>) -> Seq<char>
    decreases s.len(),
{
    if s.len() > 0 && is_white(s.last()) {
        end_trimmed(s.drop_last())
    } else {
        s
    }
}

/// What is left of a trimmed text is a prefix of it that ends in no white space, and nothing but
/// white space was behind.
pub proof fn law_end_trimmed(s: Seq<char>)
    ensures
        end_trimmed(s).is_prefix_of(s),
        end_trimmed(s).len() > 0 ==> !is_white(end_trimmed(s).last()),
        forall|i: int| end_trimmed(s).len() <= i < s.len() ==> is_white(#[trigger] s[i]),
    decreases s.len(),
{
    if s.len() > 0 && is_white(s.last()) {
        let head = s.drop_last();
        law_end_trimmed(head);
        assert forall|i: int| end_trimmed(s).len() <= i < s.len() implies is_white(#[trigger] s[i]) by {
            if i < head.len() {
                assert(head[i] == s[i]);
            }
        }
    }
}

/// Drops the white space at the end of `s`.
pub fn trim_end<'a>(s: &'a str) -> (res: &'a str)
    ensures
        res@ == end_trimmed(s@),
{
    let source = chars(s);
    let mut n: usize = source.len();
    assert(s@.take(n as int) =~= s@);
    while n > 0 && white(source[n - 1])
        invariant
            n <= source.len(),
            source@ == s@,
            end_trimmed(s@) == end_trimmed(s@.take(n as int)),
        decreases n,
    {
        assert(s@.take(n as int).drop_last() =~= s@.take(n - 1));
        n = n - 1;
    }
    let res = s.substring_char(0, n);
    assert(res@ =~= s@.take(n as int));
    res
}

/// The character that stands for a digit of base sixteen.
pub open spec fn digit_char(d: nat) -> char {
    if d < 10 {
        (0x30 + d) as char
    } else {
        (0x57 + d) as char
    }
}

/// `n` in base ten.
pub open spec fn decimal_text(n: nat) -> Seq<char>
    decreases n,
{
    if n < 10 {
        seq![digit_char(n)]
    } else {
        decimal_text(n / 10).push(digit_char(n % 10))
    }
}

/// The two base-sixteen digits of a byte.
pub open spec fn hex_text(b: u8) -> Seq<char> {
    seq![digit_char((b / 16) as nat), digit_char((b % 16) as nat)]
}

/// The character for a digit of base sixteen.
fn digit(d: u8) -> (res: char)
    requires
        d < 16,
    ensures
        res == digit_char(d as nat),
{
    if d < 10 {
        (0x30u8 + d) as char
    } else {
        (0x57u8 + d) as char
    }
}

/// Writes `n` in base ten behind `out`.
pub fn push_decimal(out: &mut String, n: u64)
    ensures
        final(out)@ == old(out)@ + decimal_text(n as nat),
    decreases n,
{
    if n < 10 {
        out.push(digit(n as u8));
    } else {
        push_decimal(out, n / 10);
        out.push(digit((n % 10) as u8));
    }
    assert(out@ =~= old(out)@ + decimal_text(n as nat));
}

/// Writes the two base-sixteen digits of `b` behind `out`.
pub fn push_hex(out: &mut String, b: u8)
    ensures
        final(out)@ == old(out)@ + hex_text(b),
{
    out.push(digit(b / 16));
    out.push(digit(b % 16));
    assert(out@ =~= old(out)@ + hex_text(b));
}

/// Compares two texts.
pub fn same_text(a: &str, b: &str) -> (res: bool)
    ensures
        res == (a@ == b@),
{
    let res = crate::bytes::same(a.as_bytes(), b.as_bytes());
    proof {
        broadcast use vstd::utf8::encode_utf8_decode_utf8;
        assert(vstd::utf8::decode_utf8(encode_utf8(a@)) == a@);
        assert(vstd::utf8::decode_utf8(encode_utf8(b@)) == b@);
    }
    res
}

} // verus!
