//! What a tooltip says, and where it opens.

use crate::float::{is_less, less};
use crate::text::{end_trimmed, trim_end};
use vstd::prelude::*;

verus! {

/// What a tooltip is about.
#[derive(Debug, PartialEq, Eq)]
pub enum TooltipToken {
    WindowInfo,
    /// An item of the tray, by its service.
    Tray(String),
    Volume,
    Backlight,
    Battery,
}

/// The model of a [`TooltipToken`].
pub enum TokenView {
    WindowInfo,
    Tray(Seq<char>),
    Volume,
    Backlight,
    Battery,
}

impl View for TooltipToken {
    type V = TokenView;

    open spec fn view(&self) -> TokenView {
        match self {
            TooltipToken::WindowInfo => TokenView::WindowInfo,
            TooltipToken::Tray(service) => TokenView::Tray(service@),
            TooltipToken::Volume => TokenView::Volume,
            TooltipToken::Backlight => TokenView::Backlight,
            TooltipToken::Battery => TokenView::Battery,
        }
    }
}

/// A tooltip's text and what it is about.
#[derive(Debug, PartialEq, Eq)]
pub struct TooltipContent {
    pub token: TooltipToken,
    pub text: String,
}

/// The model of a [`TooltipContent`].
pub struct ContentView {
    pub token: TokenView,
    pub text: Seq<char>,
}

impl View for TooltipContent {
    type V = ContentView;

    open spec fn view(&self) -> ContentView {
        ContentView { token: self.token@, text: self.text@ }
    }
}

/// The model of an optional [`TooltipContent`].
pub open spec fn content_view(content: Option<TooltipContent>) -> Option<ContentView> {
    match content {
        Some(c) => Some(c@),
        None => None,
    }
}

/// How a text is set: as it comes, or with every script shaped by its own rules.
#[derive(Debug, Clone, Copy, PartialEq, Eq, Structural)]
pub enum Shaping {
    Basic,
    Auto,
}

/// What is drawn in a tooltip.
pub struct TooltipText<'a> {
    pub text: &'a str,
    pub padding: u16,
    pub shaping: Shaping,
}

/// The model of a [`TooltipText`].
pub struct TooltipTextView {
    pub text: Seq<char>,
    pub padding: u16,
    pub shaping: Shaping,
}

impl<'a> View for TooltipText<'a> {
    type V = TooltipTextView;

    open spec fn view(&self) -> TooltipTextView {
        TooltipTextView { text: self.text@, padding: self.padding, shaping: self.shaping }
    }
}

/// How a content is drawn.
pub open spec fn drawn(content: ContentView) -> TooltipTextView {
    match content.token {
        TokenView::WindowInfo => TooltipTextView {
            text: end_trimmed(content.text),
            padding: 13,
            shaping: Shaping::Auto,
        },
        _ => TooltipTextView { text: content.text, padding: 10, shaping: Shaping::Basic },
    }
}

impl TooltipContent {
    /// What is drawn for this content.
    pub fn draw<'a>(&'a self) -> (res: TooltipText<'a>)
        ensures
            res@ == drawn(self@),
    {
        match &self.token {
            TooltipToken::WindowInfo => TooltipText {
                text: trim_end(self.text.as_str()),
                padding: 13,
                shaping: Shaping::Auto,
            },
            _ => TooltipText { text: self.text.as_str(), padding: 10, shaping: Shaping::Basic },
        }
    }
}

/// An edge of a rectangle.
#[derive(Debug, Clone, Copy, PartialEq, Eq, Structural)]
pub enum Edge {
    Top,
    Bottom,
    Left,
    Right,
}

/// Where a popup opens: at an edge of a rectangle on its parent, towards an edge, and whether it
/// may slide along the screen to stay within.
#[derive(Debug, Clone, Copy, PartialEq, Eq, Structural)]
pub struct Placement {
    pub x: u32,
    pub y: u32,
    pub width: u32,
    pub height: u32,
    pub anchor: Edge,
    pub gravity: Edge,
    pub slide_x: bool,
    pub slide_y: bool,
}

/// The place right below a point.
pub open spec fn below_point(x: u32, y: u32) -> Placement {
    Placement {
        x,
        y,
        width: 1,
        height: 1,
        anchor: Edge::Bottom,
        gravity: Edge::Bottom,
        slide_x: true,
        slide_y: true,
    }
}

/// The place right below a point.
pub fn below(x: u32, y: u32) -> (res: Placement)
    ensures
        res == below_point(x, y),
{
    Placement {
        x,
        y,
        width: 1,
        height: 1,
        anchor: Edge::Bottom,
        gravity: Edge::Bottom,
        slide_x: true,
        slide_y: true,
    }
}

/// Width and height, by their bits.
#[derive(Debug, Clone, Copy, PartialEq, Eq, Structural)]
pub struct Extent {
    pub width: u32,
    pub height: u32,
}

/// Whether `after` is wider or higher than `before`.
pub open spec fn grown(before: Extent, after: Extent) -> bool {
    less(before.width, after.width) || less(before.height, after.height)
}

/// Tells whether `after` is wider or higher than `before`.
pub fn outgrows(before: Extent, after: Extent) -> (res: bool)
    ensures
        res == grown(before, after),
{
    is_less(before.width, after.width) || is_less(before.height, after.height)
}

} // verus!
