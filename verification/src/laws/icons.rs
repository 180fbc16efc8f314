//! What holds of icons.

use crate::icons::{
    answer, distinct, filled, kept, lemma_position, lemma_position_is, loader_of, pictured, position, wanted,
    Entries, Handle, Loader, CAPACITY,
};
use crate::picture::{blank, in_colours, png_frame, png_gives, recoloured, Pixmap};
use crate::text::begins;
use crate::theme::{color_text, css_text, dark, Palette, Rgb};
use vstd::prelude::*;
use vstd::utf8::encode_utf8;

verus! {

/// An icon is looked for exactly where nothing is kept under its name, and then by that name, in
/// the size and the colours that were asked for, in the bar's theme.
pub proof fn law_requests(entries: Entries, key: Seq<char>, size: u16, symbolic: bool)
    ensures
        wanted(entries, key, size, symbolic) is None <==> exists|i: int|
            0 <= i < entries.len() && (#[trigger] entries[i]).0 == key,
        wanted(entries, key, size, symbolic) matches Some(r) ==> r.key == key && r.size == size
            && r.symbolic == symbolic && r.theme == "Tela-dracula-dark"@,
{
    lemma_position(entries, key);
    if exists|i: int| 0 <= i < entries.len() && (#[trigger] entries[i]).0 == key {
        let i = choose|i: int| 0 <= i < entries.len() && (#[trigger] entries[i]).0 == key;
        assert(position(entries, key) <= i);
    }
}

/// An icon is what is kept under its name, or else what was loaded.
pub proof fn law_answers(entries: Entries, i: int, key: Seq<char>, loaded: Option<Handle>)
    requires
        distinct(entries),
        0 <= i < entries.len(),
    ensures
        answer(entries, entries[i].0, loaded) == entries[i].1,
        (forall|j: int| 0 <= j < entries.len() ==> (#[trigger] entries[j]).0 != key) ==> answer(
            entries,
            key,
            loaded,
        ) == loaded,
{
    lemma_position(entries, entries[i].0);
    lemma_position(entries, key);
    assert(position(entries, entries[i].0) == i);
}

/// A lookup puts its name in front. Every other name keeps what is kept under it, but for the
/// one used least recently, which leaves exactly where sixteen are kept and a new one comes.
pub proof fn law_lookup_keeps_the_others(
    entries: Entries,
    key: Seq<char>,
    loaded: Option<Handle>,
    other: Seq<char>,
)
    requires
        distinct(entries),
        entries.len() <= 16,
        other != key,
    ensures
        ({
            let after = filled(entries, CAPACITY as nat, key, loaded);
            let leaves = kept(entries, key) is None && entries.len() == 16 && entries.last().0 == other;
            &&& after.len() > 0 && after[0] == (key, answer(entries, key, loaded))
            &&& leaves ==> kept(after, other) is None
            &&& !leaves ==> kept(after, other) == kept(entries, other)
        }),
{
    let after = filled(entries, CAPACITY as nat, key, loaded);
    lemma_position(entries, key);
    lemma_position(entries, other);
    let at = position(entries, other);
    if kept(entries, key) is Some {
        let from = position(entries, key);
        assert(after[0] == entries[from]);
        let to = if at == entries.len() || from > at {
            if at == entries.len() {
                at
            } else {
                at + 1
            }
        } else {
            at
        };
        assert forall|i: int| 0 <= i < to implies (#[trigger] after[i]).0 != other by {
            if i > 0 {
                let k = if i <= from {
                    i - 1
                } else {
                    i
                };
                assert(after[i] == entries[k]);
            }
        }
        if at < entries.len() {
            assert(after[to] == entries[at]);
        }
        lemma_position_is(after, other, to);
    } else {
        let full = entries.len() == CAPACITY;
        let to = if full && at >= entries.len() - 1 {
            after.len() as int
        } else {
            at + 1
        };
        assert forall|i: int| 0 <= i < to implies (#[trigger] after[i]).0 != other by {
            if i > 0 {
                assert(after[i] == entries[i - 1]);
            }
        }
        if to < after.len() {
            assert(after[to] == entries[at]);
        }
        if full && at == entries.len() - 1 {
            assert(entries.last().0 == other);
        }
        if full && entries.last().0 == other {
            assert(entries[entries.len() - 1].0 == other);
            assert(at == entries.len() - 1);
        }
        lemma_position_is(after, other, to);
    }
}

/// A file is read as a drawing exactly where it is called one, in the colours of the bar exactly
/// where that was asked for; as a pixmap exactly where it is called that, whatever was asked for.
pub proof fn law_loaders(extension: Option<Seq<u8>>, symbolic: bool)
    ensures
        loader_of(extension, symbolic) == Some(Loader::Svg) <==> extension == Some(encode_utf8("svg"@))
            && !symbolic,
        loader_of(extension, symbolic) == Some(Loader::Symbolic) <==> extension == Some(
            encode_utf8("svg"@),
        ) && symbolic,
        loader_of(extension, symbolic) == Some(Loader::Png) <==> extension == Some(encode_utf8("png"@)),
{
    reveal_strlit("svg");
    reveal_strlit("png");
    vstd::utf8::is_ascii_chars_encode_utf8("svg"@);
    vstd::utf8::is_ascii_chars_encode_utf8("png"@);
    assert(encode_utf8("svg"@)[0] != encode_utf8("png"@)[0]);
}

/// An icon is as wide as its size says, and a drawing as high; a pixmap's height is its own.
pub proof fn law_pictures(number: u64, size: u16)
    ensures
        pictured(Handle::Svg(number), size).width == size,
        pictured(Handle::Svg(number), size).height == Some(size),
        pictured(Handle::Pixmap(number), size).width == size,
        pictured(Handle::Pixmap(number), size).height is None,
        pictured(Handle::Svg(number), size).handle == Handle::Svg(number),
        pictured(Handle::Pixmap(number), size).handle == Handle::Pixmap(number),
{
}

/// Pixels are shown exactly where they are red, green, blue and alpha of eight bits each. A
/// pixmap is as large as the frame and has the pixels that were decoded over zeros.
pub proof fn law_pixmaps(data: Seq<u8>, size: usize, res: Option<Pixmap>)
    requires
        png_gives(data, size, res),
    ensures
        ({
            let zeros = Seq::new(size as nat, |j: int| 0u8);
            let (frame, pixels) = png_frame(data, usize::BITS, zeros);
            &&& res is Some <==> frame is Some && frame.unwrap().color_type == 6
                && frame.unwrap().bit_depth == 8
            &&& res matches Some(p) ==> p.width == frame.unwrap().width && p.height
                == frame.unwrap().height && p.rgba@ == pixels
        }),
{
    assert(blank(size as nat) =~= Seq::new(size as nat, |j: int| 0u8));
}

/// Where a drawing leaves no colour open, it stays as it is; the first open colour becomes that
/// of the text, and the rest is searched behind it.
pub proof fn law_recoloured(head: Seq<char>, tail: Seq<char>, palette: Palette)
    ensures
        (forall|i: int| 0 <= i <= head.len() ==> !begins(#[trigger] head.skip(i), "currentColor"@))
            ==> recoloured(head, palette) == head,
        (forall|i: int|
            0 <= i < head.len() ==> !begins(
                #[trigger] (head + "currentColor"@ + tail).skip(i),
                "currentColor"@,
            )) ==> recoloured(head + "currentColor"@ + tail, palette) == head + color_text(palette.text)
            + recoloured(tail, palette),
{
    reveal_strlit("currentColor");
    if forall|i: int| 0 <= i <= head.len() ==> !begins(#[trigger] head.skip(i), "currentColor"@) {
        crate::text::law_nothing_to_replace(head, "currentColor"@, color_text(palette.text));
    }
    if forall|i: int|
        0 <= i < head.len() ==> !begins(
            #[trigger] (head + "currentColor"@ + tail).skip(i),
            "currentColor"@,
        ) {
        crate::laws::text::law_first_occurrence_is_replaced(
            head,
            tail,
            "currentColor"@,
            color_text(palette.text),
        );
    }
}

/// A colour is written as a hash sign and the two digits of red, of green and of blue.
pub proof fn law_color_text(c: Rgb)
    ensures
        color_text(c) == seq![
            '#',
            "0123456789abcdef"@[c.r as int / 16],
            "0123456789abcdef"@[c.r as int % 16],
            "0123456789abcdef"@[c.g as int / 16],
            "0123456789abcdef"@[c.g as int % 16],
            "0123456789abcdef"@[c.b as int / 16],
            "0123456789abcdef"@[c.b as int % 16],
        ],
{
    crate::laws::text::law_hex_text(c.r);
    crate::laws::text::law_hex_text(c.g);
    crate::laws::text::law_hex_text(c.b);
    assert(color_text(c) =~= seq![
        '#',
        "0123456789abcdef"@[c.r as int / 16],
        "0123456789abcdef"@[c.r as int % 16],
        "0123456789abcdef"@[c.g as int / 16],
        "0123456789abcdef"@[c.g as int % 16],
        "0123456789abcdef"@[c.b as int / 16],
        "0123456789abcdef"@[c.b as int % 16],
    ]);
}

/// A symbolic drawing has its open colours filled in and the style sheet beside it.
pub proof fn law_symbolic_drawings(text: Seq<char>, palette: Palette)
    ensures
        in_colours(text, palette).text == recoloured(text, palette),
        in_colours(text, palette).style_sheet == Some(css_text(palette)),
{
}

proof fn lemma_digits()
    ensures
        "0123456789abcdef"@.len() == 16,
        forall|i: int|
            0 <= i < 16 ==> #[trigger] "0123456789abcdef"@[i] == (if i < 10 {
                (0x30 + i) as char
            } else {
                (0x57 + i) as char
            }),
{
    reveal_strlit("0123456789abcdef");
}

/// The colours of the bar, as they are written.
pub proof fn law_palette()
    ensures
        color_text(dark().background.rgb) == "#1e1c22"@,
        dark().background.alpha == 38,
        color_text(dark().text) == "#cdd6f5"@,
        color_text(dark().primary) == "#a476f7"@,
        color_text(dark().success) == "#92b673"@,
        color_text(dark().warning) == "#e09733"@,
        color_text(dark().danger) == "#f25b4f"@,
{
    lemma_digits();
    reveal_strlit("#1e1c22");
    reveal_strlit("#cdd6f5");
    reveal_strlit("#a476f7");
    reveal_strlit("#92b673");
    reveal_strlit("#e09733");
    reveal_strlit("#f25b4f");
    law_color_text(dark().background.rgb);
    law_color_text(dark().text);
    law_color_text(dark().primary);
    law_color_text(dark().success);
    law_color_text(dark().warning);
    law_color_text(dark().danger);
}

/// One rule of a style sheet.
pub open spec fn fills(sheet: Seq<char>, selector: Seq<char>, c: Rgb) -> bool {
    exists|before: Seq<char>, behind: Seq<char>|
        sheet == #[trigger] (before + (selector + " { fill:"@ + color_text(c) + " }"@) + behind)
}

/// The style sheet fills everything and the foreground with the colour of the text, and success,
/// warnings, errors and accents with their own.
pub proof fn law_style_sheet(palette: Palette)
    ensures
        fills(css_text(palette), "*"@, palette.text),
        fills(css_text(palette), ".foreground"@, palette.text),
        fills(css_text(palette), ".success"@, palette.success),
        fills(css_text(palette), ".warning"@, palette.warning),
        fills(css_text(palette), ".error"@, palette.danger),
        fills(css_text(palette), ".accent"@, palette.primary),
        css_text(palette).take(18) == "*"@ + " { fill:"@ + color_text(palette.text) + " }"@,
        css_text(palette).len() == 143,
{
    reveal_strlit("*");
    reveal_strlit(".foreground");
    reveal_strlit(".success");
    reveal_strlit(".warning");
    reveal_strlit(".error");
    reveal_strlit(".accent");
    reveal_strlit(" { fill:");
    reveal_strlit(" }");
    let rule = |selector: Seq<char>, c: Rgb| selector + " { fill:"@ + color_text(c) + " }"@;
    let css = css_text(palette);
    let a = rule("*"@, palette.text);
    let b = rule(".foreground"@, palette.text);
    let c = rule(".success"@, palette.success);
    let d = rule(".warning"@, palette.warning);
    let e = rule(".error"@, palette.danger);
    let f = rule(".accent"@, palette.primary);
    assert(css =~= a + b + c + d + e + f);
    assert(css.take(18) =~= a);
    let none = Seq::<char>::empty();
    assert(css =~= none + a + (b + c + d + e + f));
    assert(css =~= a + b + (c + d + e + f));
    assert(css =~= (a + b) + c + (d + e + f));
    assert(css =~= (a + b + c) + d + (e + f));
    assert(css =~= (a + b + c + d) + e + f);
    assert(css =~= (a + b + c + d + e) + f + none);
}

} // verus!
