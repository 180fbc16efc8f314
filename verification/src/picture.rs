//! Reading icon files.

use crate::text::{replace_all, replaced};
use crate::theme::{color_text, css_text, Palette};
use std::io::Cursor;
use vstd::prelude::*;

verus! {

/// The first frame of a picture as it was decoded: its size, and the numbers of its colour type
/// and of its bits per sample.
pub struct Frame {
    pub width: u32,
    pub height: u32,
    pub color_type: u8,
    pub bit_depth: u8,
}

/// How many bytes the pixels of the PNG file `data` take on a machine with words of `bits`
/// bits, if it begins as a PNG file does.
pub uninterp spec fn png_size(data: Seq<u8>, bits: u32) -> Option<usize>;

/// The first frame of the PNG file `data`, and the pixels, which are written over `buf`.
pub uninterp spec fn png_frame(data: Seq<u8>, bits: u32, buf: Seq<u8>) -> (Option<Frame>, Seq<u8>);

/// `Decoder::read_info` reads a PNG file up to its pixels, and `Reader::output_buffer_size`
/// tells how many bytes they take; there is no answer where the file is damaged before its
/// pixels or where they would not fit the machine's memory.
#[verifier::external_body]
fn read_png_size(data: &[u8]) -> (res: Option<usize>)
    ensures
        res == png_size(data@, usize::BITS),
{
    png::Decoder::new(Cursor::new(data)).read_info().ok()?.output_buffer_size()
}

/// `Reader::next_frame` decodes the pixels of a PNG file into a buffer, whose length it keeps,
/// and tells their size and kind; there is no answer where the pixels are damaged.
#[verifier::external_body]
fn read_png_frame(data: &[u8], buf: &mut Vec<u8>) -> (res: Option<Frame>)
    requires
        png_size(data@, usize::BITS) == Some(old(buf)@.len() as usize),
    ensures
        (res, final(buf)@) == png_frame(data@, usize::BITS, old(buf)@),
        final(buf)@.len() == old(buf)@.len(),
{
    let mut reader = png::Decoder::new(Cursor::new(data)).read_info().ok()?;
    let info = reader.next_frame(buf).ok()?;
    Some(Frame {
        width: info.width,
        height: info.height,
        color_type: info.color_type as u8,
        bit_depth: info.bit_depth as u8,
    })
}

/// A picture of four bytes a pixel.
pub struct Pixmap {
    pub width: u32,
    pub height: u32,
    pub rgba: Vec<u8>,
}

/// The number of the colour type with red, green, blue and alpha samples.
pub const RGBA: u8 = 6;

/// Whether the bar can show a frame: it has red, green, blue and alpha samples of eight bits.
pub open spec fn showable(frame: Frame) -> bool {
    frame.color_type == RGBA && frame.bit_depth == 8
}

/// Makes a pixmap of a decoded frame, if the bar can show it.
pub fn accept_frame(frame: Option<Frame>, pixels: Vec<u8>) -> (res: Option<Pixmap>)
    ensures
        res is Some <==> (frame matches Some(f) && showable(f)),
        res matches Some(p) ==> p.width == frame.unwrap().width && p.height == frame.unwrap().height
            && p.rgba@ == pixels@,
{
    match frame {
        Some(f) => {
            if f.color_type != RGBA {
                return None;
            }
            if f.bit_depth != 8 {
                return None;
            }
            Some(Pixmap { width: f.width, height: f.height, rgba: pixels })
        },
        None => None,
    }
}

/// The bytes that a picture is decoded over.
pub open spec fn blank(size: nat) -> Seq<u8> {
    Seq::new(size, |i: int| 0u8)
}

/// Whether the PNG file `data` gives the pixmap `res`.
pub open spec fn png_gives(data: Seq<u8>, size: usize, res: Option<Pixmap>) -> bool {
    let (frame, pixels) = png_frame(data, usize::BITS, blank(size as nat));
    &&& res is Some <==> (frame matches Some(f) && showable(f))
    &&& res matches Some(p) ==> p.width == frame.unwrap().width && p.height == frame.unwrap().height
        && p.rgba@ == pixels && p.rgba@.len() == size
}

/// Reads a PNG file that begins as one does.
pub fn load_png(data: &[u8]) -> (res: Option<Pixmap>)
    requires
        png_size(data@, usize::BITS) is Some,
    ensures
        png_gives(data@, png_size(data@, usize::BITS).unwrap(), res),
{
    let size = read_png_size(data).unwrap();
    let mut pixels: Vec<u8> = vec![0u8; size];
    assert(pixels@ =~= blank(size as nat));
    let frame = read_png_frame(data, &mut pixels);
    accept_frame(frame, pixels)
}

/// Reads a PNG file; the inner answer is there where the file begins as a PNG file does.
pub fn try_load_png(data: &[u8]) -> (res: Option<Option<Pixmap>>)
    ensures
        res is Some <==> png_size(data@, usize::BITS) is Some,
        res matches Some(pixmap) ==> png_gives(
            data@,
            png_size(data@, usize::BITS).unwrap(),
            pixmap,
        ),
{
    match read_png_size(data) {
        Some(_) => Some(load_png(data)),
        None => None,
    }
}

/// A drawing as it is handed to the parser: its text, and the style sheet to draw it under.
#[derive(Debug, PartialEq, Eq)]
pub struct Drawing {
    pub text: String,
    pub style_sheet: Option<String>,
}

/// The model of a [`Drawing`].
pub struct DrawingView {
    pub text: Seq<char>,
    pub style_sheet: Option<Seq<char>>,
}

impl View for Drawing {
    type V = DrawingView;

    open spec fn view(&self) -> DrawingView {
        DrawingView {
            text: self.text@,
            style_sheet: match self.style_sheet {
                Some(sheet) => Some(sheet@),
                None => None,
            },
        }
    }
}

/// What is parsed of a drawing with its own colours: the drawing as it is.
pub fn svg_source(text: String) -> (res: Drawing)
    ensures
        res@ == (DrawingView { text: text@, style_sheet: None }),
{
    Drawing { text, style_sheet: None }
}

/// A drawing in which the colour of the text stands wherever it leaves the colour open.
pub open spec fn recoloured(text: Seq<char>, palette: Palette) -> Seq<char> {
    replaced(text, "currentColor"@, color_text(palette.text))
}

/// Puts the colour of the text wherever a drawing leaves the colour open.
pub fn recolour(text: &str, palette: &Palette) -> (res: String)
    ensures
        res@ == recoloured(text@, *palette),
{
    proof {
        reveal_strlit("currentColor");
    }
    replace_all(text, "currentColor", palette.text.css().as_str())
}

/// A drawing in the colours of the bar.
pub open spec fn in_colours(text: Seq<char>, palette: Palette) -> DrawingView {
    DrawingView { text: recoloured(text, palette), style_sheet: Some(css_text(palette)) }
}

/// What is parsed of a drawing in the colours of the bar: the drawing with its open colours
/// filled in, under the style sheet for the others.
pub fn symbolic_source(text: &str, palette: &Palette) -> (res: Drawing)
    ensures
        res@ == in_colours(text@, *palette),
{
    Drawing { text: recolour(text, palette), style_sheet: Some(palette.css_injection()) }
}

} // verus!
