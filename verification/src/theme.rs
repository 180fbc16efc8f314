//! The colours of the bar.

use crate::text::{hex_text, push_hex};
use vstd::prelude::*;
use vstd::string::StringExecFns;

verus! {

/// An opaque colour.
#[derive(Debug, Clone, Copy, PartialEq, Eq, Structural)]
pub struct Rgb {
    pub r: u8,
    pub g: u8,
    pub b: u8,
}

/// A colour with its opacity in hundredths.
#[derive(Debug, Clone, Copy, PartialEq, Eq, Structural)]
pub struct Color {
    pub rgb: Rgb,
    pub alpha: u8,
}

/// A colour as style sheets write it.
pub open spec fn color_text(c: Rgb) -> Seq<char> {
    seq!['#'] + hex_text(c.r) + hex_text(c.g) + hex_text(c.b)
}

impl Rgb {
    /// Writes the colour as style sheets do.
    pub fn css(&self) -> (res: String)
        ensures
            res@ == color_text(*self),
    {
        let mut res = String::new();
        res.push('#');
        push_hex(&mut res, self.r);
        push_hex(&mut res, self.g);
        push_hex(&mut res, self.b);
        assert(res@ =~= color_text(*self));
        res
    }

    /// The same colour with an opacity.
    pub fn with_alpha(self, alpha: u8) -> (res: Color)
        ensures
            res == (Color { rgb: self, alpha }),
    {
        Color { rgb: self, alpha }
    }
}

/// The colours that everything is drawn in.
#[derive(Debug, Clone, Copy, PartialEq, Eq, Structural)]
pub struct Palette {
    pub background: Color,
    pub text: Rgb,
    pub primary: Rgb,
    pub success: Rgb,
    pub warning: Rgb,
    pub danger: Rgb,
}

/// The palette of the bar.
pub open spec fn dark() -> Palette {
    Palette {
        background: Color { rgb: Rgb { r: 30, g: 28, b: 34 }, alpha: 38 },
        text: Rgb { r: 0xcd, g: 0xd6, b: 0xf5 },
        primary: Rgb { r: 0xa4, g: 0x76, b: 0xf7 },
        success: Rgb { r: 0x92, g: 0xb6, b: 0x73 },
        warning: Rgb { r: 0xe0, g: 0x97, b: 0x33 },
        danger: Rgb { r: 0xf2, g: 0x5b, b: 0x4f },
    }
}

/// The palette of the bar.
pub fn theme() -> (res: Palette)
    ensures
        res == dark(),
{
    Palette {
        background: Color { rgb: Rgb { r: 30, g: 28, b: 34 }, alpha: 38 },
        text: Rgb { r: 0xcd, g: 0xd6, b: 0xf5 },
        primary: Rgb { r: 0xa4, g: 0x76, b: 0xf7 },
        success: Rgb { r: 0x92, g: 0xb6, b: 0x73 },
        warning: Rgb { r: 0xe0, g: 0x97, b: 0x33 },
        danger: Rgb { r: 0xf2, g: 0x5b, b: 0x4f },
    }
}

/// The rule that fills what `selector` matches with `color`.
pub open spec fn rule_text(selector: Seq<char>, color: Rgb) -> Seq<char> {
    selector + " { fill:"@ + color_text(color) + " }"@
}

/// The style sheet that gives a symbolic icon the colours of the bar.
pub open spec fn css_text(palette: Palette) -> Seq<char> {
    rule_text("*"@, palette.text) + rule_text(".foreground"@, palette.text) + rule_text(
        ".success"@,
        palette.success,
    ) + rule_text(".warning"@, palette.warning) + rule_text(".error"@, palette.danger) + rule_text(
        ".accent"@,
        palette.primary,
    )
}

/// Writes a rule behind `out`.
fn push_rule(out: &mut String, selector: &str, color: Rgb)
    ensures
        final(out)@ == old(out)@ + rule_text(selector@, color),
{
    out.append(selector);
    out.append(" { fill:");
    out.append(color.css().as_str());
    out.append(" }");
    assert(out@ =~= old(out)@ + rule_text(selector@, color));
}

impl Palette {
    /// Writes the style sheet that gives a symbolic icon the colours of the bar.
    pub fn css_injection(&self) -> (res: String)
        ensures
            res@ == css_text(*self),
    {
        let mut res = String::new();
        push_rule(&mut res, "*", self.text);
        push_rule(&mut res, ".foreground", self.text);
        push_rule(&mut res, ".success", self.success);
        push_rule(&mut res, ".warning", self.warning);
        push_rule(&mut res, ".error", self.danger);
        push_rule(&mut res, ".accent", self.primary);
        assert(res@ =~= css_text(*self));
        res
    }
}

} // verus!
