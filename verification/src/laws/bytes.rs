//! What holds of byte strings.

use crate::bytes::{
    decimal, decimal_up_to, digits_value, has_prefix, lemma_split_point_is, pieces, split_once_spec,
    split_point,
};
use vstd::prelude::*;

verus! {

/// The first separator lies where nothing before it is one.
proof fn lemma_split_point(s: Seq<u8>, sep: u8)
    ensures
        0 <= split_point(s, sep) <= s.len(),
        forall|i: int| 0 <= i < split_point(s, sep) ==> s[i] != sep,
        split_point(s, sep) < s.len() ==> s[split_point(s, sep)] == sep,
    decreases s.len(),
{
    if s.len() > 0 && s[0] != sep {
        let rest = s.drop_first();
        lemma_split_point(rest, sep);
        assert forall|i: int| 0 <= i < split_point(s, sep) implies s[i] != sep by {
            if i > 0 {
                assert(rest[i - 1] == s[i]);
            }
        }
    }
}

/// The two parts and the separator between them are the whole, and the first part holds no
/// separator; there are no parts exactly where there is no separator.
pub proof fn law_parts_are_the_whole(s: Seq<u8>, sep: u8)
    ensures
        match split_once_spec(s, sep) {
            Some((a, b)) => s == a + seq![sep] + b && !a.contains(sep),
            None => !s.contains(sep),
        },
{
    lemma_split_point(s, sep);
    let at = split_point(s, sep);
    if at < s.len() {
        assert(s =~= s.take(at) + seq![sep] + s.skip(at + 1));
    }
}

/// A text put together of two parts comes apart into them.
pub proof fn law_whole_comes_apart(a: Seq<u8>, b: Seq<u8>, sep: u8)
    requires
        !a.contains(sep),
    ensures
        split_once_spec(a + seq![sep] + b, sep) == Some((a, b)),
{
    let s = a + seq![sep] + b;
    assert forall|j: int| 0 <= j < a.len() implies s[j] != sep by {
        assert(a.contains(a[j]));
    }
    lemma_split_point_is(s, sep, a.len() as int);
    assert(s.take(a.len() as int) =~= a);
    assert(s.skip(a.len() as int + 1) =~= b);
}

/// The pieces, one behind the other, with `sep` between them.
pub open spec fn joined(list: Seq<Seq<u8>>, sep: u8) -> Seq<u8>
    decreases list.len(),
{
    if list.len() == 0 {
        Seq::empty()
    } else if list.len() == 1 {
        list[0]
    } else {
        list[0] + seq![sep] + joined(list.drop_first(), sep)
    }
}

/// The pieces with separators between them are the whole, and no piece holds a separator.
pub proof fn law_pieces_are_the_whole(s: Seq<u8>, sep: u8)
    ensures
        pieces(s, sep).len() > 0,
        joined(pieces(s, sep), sep) == s,
        forall|i: int| 0 <= i < pieces(s, sep).len() ==> !(#[trigger] pieces(s, sep)[i]).contains(sep),
    decreases s.len(),
{
    lemma_split_point(s, sep);
    let at = split_point(s, sep);
    let list = pieces(s, sep);
    if at < s.len() {
        let rest = s.skip(at + 1);
        law_pieces_are_the_whole(rest, sep);
        assert(list.drop_first() =~= pieces(rest, sep));
        assert(s =~= s.take(at) + seq![sep] + rest);
        assert forall|i: int| 0 <= i < list.len() implies !(#[trigger] list[i]).contains(sep) by {
            if i > 0 {
                assert(list[i] == pieces(rest, sep)[i - 1]);
            }
        }
    }
}

/// A text begins with a prefix exactly where it is the prefix and something behind it.
pub proof fn law_prefix_and_rest(s: Seq<u8>, prefix: Seq<u8>)
    ensures
        has_prefix(s, prefix) <==> exists|rest: Seq<u8>| s == #[trigger] (prefix + rest),
{
    if has_prefix(s, prefix) {
        let rest = s.skip(prefix.len() as int);
        assert(s =~= prefix + rest);
    }
    if exists|rest: Seq<u8>| s == #[trigger] (prefix + rest) {
        let rest = choose|rest: Seq<u8>| s == #[trigger] (prefix + rest);
        assert(s.take(prefix.len() as int) =~= prefix);
    }
}


/// One digit spells itself, and one more digit behind a number makes ten of each unit.
pub proof fn law_digits_spell_numbers(s: Seq<u8>, d: u8)
    requires
        0x30 <= d <= 0x39,
    ensures
        decimal(seq![d]) == Some((d - 0x30) as nat),
        decimal(s) is Some ==> decimal(s.push(d)) == Some(
            (decimal(s).unwrap() * 10 + (d - 0x30)) as nat,
        ),
{
    let one = seq![d];
    assert(one.drop_last() =~= Seq::<u8>::empty());
    assert(digits_value(one.drop_last()) == 0);
    assert(digits_value(one) == d - 0x30);
    assert(forall|i: int| 0 <= i < one.len() ==> crate::bytes::is_digit(#[trigger] one[i]));
    if decimal(s) is Some {
        let t = s.push(d);
        if s[0] == 0x2b {
            assert(t.skip(1) =~= s.skip(1).push(d));
            assert(t.skip(1).drop_last() =~= s.skip(1));
            let u = t.skip(1);
            assert forall|i: int| 0 <= i < u.len() implies crate::bytes::is_digit(#[trigger] u[i]) by {
                if i < s.skip(1).len() {
                    assert(crate::bytes::is_digit(s.skip(1)[i]));
                }
            }
        } else {
            assert(t.drop_last() =~= s);
            assert forall|i: int| 0 <= i < t.len() implies crate::bytes::is_digit(#[trigger] t[i]) by {
                if i < s.len() {
                    assert(crate::bytes::is_digit(s[i]));
                }
            }
        }
    }
}

/// One plus sign may stand before the digits, and makes no difference; nothing else may stand
/// anywhere, and there is a digit at least.
pub proof fn law_only_digits_spell_numbers(s: Seq<u8>, i: int)
    ensures
        s.len() > 0 && s[0] != 0x2b ==> decimal(seq![0x2bu8] + s) == decimal(s),
        decimal(s) is Some && 0 < i < s.len() ==> 0x30 <= s[i] <= 0x39,
        decimal(s) is Some ==> s.len() > 0 && (0x30 <= s[0] <= 0x39 || (s[0] == 0x2b && s.len() > 1)),
{
    if s.len() > 0 && s[0] != 0x2b {
        assert((seq![0x2bu8] + s).skip(1) =~= s);
    }
    if decimal(s) is Some {
        if s[0] == 0x2b {
            if 0 < i < s.len() {
                assert(crate::bytes::is_digit(s.skip(1)[i - 1]));
            }
        } else {
            assert(crate::bytes::is_digit(s[0]));
            if 0 < i < s.len() {
                assert(crate::bytes::is_digit(s[i]));
            }
        }
    }
}

/// A number is read up to the largest that is allowed, that one included, and no further.
pub proof fn law_large_numbers_are_refused(s: Seq<u8>, max: nat)
    ensures
        match decimal(s) {
            Some(n) => if n > max {
                decimal_up_to(s, max) is None
            } else {
                decimal_up_to(s, max) == Some(n)
            },
            None => decimal_up_to(s, max) is None,
        },
{
}

} // verus!
