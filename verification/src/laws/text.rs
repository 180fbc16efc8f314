//! What holds of texts.

use crate::text::{
    begins, byte_len, char_replaced, decimal_text, fitting, hex_text, is_white, replaced, truncated,
};
use vstd::prelude::*;
use vstd::utf8::encode_scalar;

verus! {

/// One character more than what fits is too much.
proof fn lemma_fitting_is_longest(s: Seq<char>, limit: int)
    ensures
        fitting(s, limit).is_prefix_of(s),
        fitting(s, limit).len() < s.len() ==> byte_len(s.take(fitting(s, limit).len() as int + 1)) > limit,
    decreases s.len(),
{
    crate::text::lemma_fitting_is_prefix(s, limit);
    if s.len() > 0 {
        let first = encode_scalar(s[0] as u32).len() as int;
        let rest = s.drop_first();
        let n = fitting(s, limit).len() as int;
        if first > limit {
            assert(s.take(1) =~= seq![s[0]]);
            assert(seq![s[0]].drop_first() =~= Seq::<char>::empty());
            assert(byte_len(seq![s[0]]) == first + byte_len(Seq::<char>::empty()));
        } else {
            lemma_fitting_is_longest(rest, limit - first);
            if n < s.len() {
                let longer = s.take(n + 1);
                assert(longer.drop_first() =~= rest.take(n));
                assert(byte_len(longer) == first + byte_len(longer.drop_first()));
            }
        }
    }
}

/// A text of fewer bytes than allowed is shown whole. A longer one is cut: what is left is a
/// beginning of it and the ellipsis, and one character more of it would be too much.
pub proof fn law_cut_or_whole(s: Seq<char>, len: int, ellipsis: Seq<char>)
    requires
        byte_len(ellipsis) <= len,
    ensures
        byte_len(s) < len ==> truncated(s, len, ellipsis) == s,
        byte_len(s) >= len ==> exists|n: int|
            0 <= n <= s.len() && truncated(s, len, ellipsis) == #[trigger] s.take(n) + ellipsis && byte_len(
                s.take(n) + ellipsis,
            ) <= len && (n < s.len() ==> byte_len(s.take(n + 1)) + byte_len(ellipsis) > len),
{
    if byte_len(s) >= len {
        let limit = len - byte_len(ellipsis);
        lemma_fitting_is_longest(s, limit);
        crate::text::law_truncated_fits(s, len, ellipsis);
        let n = fitting(s, limit).len() as int;
        assert(fitting(s, limit) =~= s.take(n));
    }
}

/// A character is replaced wherever it stands, and no other character is.
pub proof fn law_characters_are_replaced_one_by_one(
    a: Seq<char>,
    b: Seq<char>,
    c: char,
    from: char,
    to: Seq<char>,
)
    ensures
        char_replaced(a + b, from, to) == char_replaced(a, from, to) + char_replaced(b, from, to),
        char_replaced(seq![from], from, to) == to,
        c != from ==> char_replaced(seq![c], from, to) == seq![c],
    decreases b.len(),
{
    assert(char_replaced(Seq::<char>::empty(), from, to) =~= Seq::<char>::empty());
    assert(seq![from].drop_last() =~= Seq::<char>::empty());
    assert(char_replaced(seq![from], from, to) =~= to);
    assert(seq![c].drop_last() =~= Seq::<char>::empty());
    assert(c != from ==> char_replaced(seq![c], from, to) =~= seq![c]);
    if b.len() == 0 {
        assert(a + b =~= a);
        assert(char_replaced(a, from, to) + char_replaced(b, from, to) =~= char_replaced(a, from, to));
    } else {
        law_characters_are_replaced_one_by_one(a, b.drop_last(), c, from, to);
        assert((a + b).drop_last() =~= a + b.drop_last());
        assert((a + b).last() == b.last());
        assert(char_replaced(a + b, from, to) =~= char_replaced(a, from, to) + char_replaced(b, from, to));
    }
}

/// The first occurrence of a text is replaced, what stands before it stays, and the rest is
/// searched behind it.
pub proof fn law_first_occurrence_is_replaced(head: Seq<char>, tail: Seq<char>, from: Seq<char>, to: Seq<char>)
    requires
        from.len() > 0,
        forall|i: int| 0 <= i < head.len() ==> !begins(#[trigger] (head + from + tail).skip(i), from),
    ensures
        replaced(head + from + tail, from, to) == head + to + replaced(tail, from, to),
    decreases head.len(),
{
    let s = head + from + tail;
    if head.len() == 0 {
        assert(s.take(from.len() as int) =~= from);
        assert(s.skip(from.len() as int) =~= tail);
        assert(head + to + replaced(tail, from, to) =~= to + replaced(tail, from, to));
    } else {
        let shorter = head.drop_first();
        let rest = shorter + from + tail;
        assert(s.skip(0) =~= s);
        assert(s.drop_first() =~= rest);
        assert forall|i: int| 0 <= i < shorter.len() implies !begins(#[trigger] rest.skip(i), from) by {
            assert(rest.skip(i) =~= s.skip(i + 1));
        }
        law_first_occurrence_is_replaced(shorter, tail, from, to);
        assert(seq![head[0]] + (shorter + to + replaced(tail, from, to)) =~= head + to + replaced(
            tail,
            from,
            to,
        ));
    }
}

/// A number below ten is written as its digit, another as its tens with the last digit behind.
pub proof fn law_decimal_text(n: nat)
    ensures
        n < 10 ==> decimal_text(n) == seq!["0123456789"@[n as int]],
        n >= 10 ==> decimal_text(n) == decimal_text(n / 10) + decimal_text(n % 10),
{
    reveal_strlit("0123456789");
    if n >= 10 {
        assert(decimal_text(n) =~= decimal_text(n / 10) + decimal_text(n % 10));
    }
}

/// A byte is written as its sixteens and its units.
pub proof fn law_hex_text(b: u8)
    ensures
        hex_text(b) == seq!["0123456789abcdef"@[b as int / 16], "0123456789abcdef"@[b as int % 16]],
{
    reveal_strlit("0123456789abcdef");
}

/// A text begins with another exactly where the other and something more are the whole of it.
pub proof fn law_beginnings(s: Seq<char>, prefix: Seq<char>, rest: Seq<char>)
    ensures
        begins(prefix + rest, prefix),
        begins(s, prefix) ==> s == prefix + s.skip(prefix.len() as int),
{
    assert((prefix + rest).take(prefix.len() as int) =~= prefix);
    if begins(s, prefix) {
        assert(s =~= s.take(prefix.len() as int) + s.skip(prefix.len() as int));
    }
}

/// White space is what Unicode calls so: five controls and the blank of the first characters, the
/// next line, and the blanks and separators behind.
pub proof fn law_white_space(c: char)
    ensures
        (c as u32) < 0x80 ==> (is_white(c) <==> c == '\t' || c == '\n' || c == '\u{b}' || c == '\u{c}' || c
            == '\r' || c == ' '),
        0x80 <= (c as u32) < 0x2000 ==> (is_white(c) <==> c == '\u{85}' || c == '\u{a0}' || c == '\u{1680}'),
        0x2000 <= (c as u32) < 0x2028 ==> (is_white(c) <==> (c as u32) < 0x200b),
        0x2028 <= (c as u32) ==> (is_white(c) <==> c == '\u{2028}' || c == '\u{2029}' || c == '\u{202f}' || c
            == '\u{205f}' || c == '\u{3000}'),
{
}

} // verus!
