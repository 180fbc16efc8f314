//! What holds of tooltips.

use crate::text::is_white;
use crate::tooltip::{below_point, drawn, grown, ContentView, Edge, Extent, Shaping};
use vstd::prelude::*;

verus! {

/// What a tooltip says is drawn whole, except that the white space behind the active window's
/// description is left out; that one has more room around it, and scripts shaped by their rules.
pub proof fn law_drawn(content: ContentView)
    ensures
        content.token !is WindowInfo ==> drawn(content).text == content.text && drawn(content).padding == 10
            && drawn(content).shaping == Shaping::Basic,
        content.token is WindowInfo ==> drawn(content).padding == 13 && drawn(content).shaping
            == Shaping::Auto && drawn(content).text.is_prefix_of(content.text),
        content.token is WindowInfo && content.text.len() > 0 && !is_white(content.text.last())
            ==> drawn(content).text == content.text,
        content.token is WindowInfo && drawn(content).text.len() > 0 ==> !is_white(
            drawn(content).text.last(),
        ),
        forall|i: int|
            drawn(content).text.len() <= i < content.text.len() ==> is_white(#[trigger] content.text[i]),
{
    crate::text::law_end_trimmed(content.text);
}

/// A popup opens from a single point downwards, and may slide along the screen.
pub proof fn law_below(x: u32, y: u32)
    ensures
        below_point(x, y).x == x,
        below_point(x, y).y == y,
        below_point(x, y).width == 1,
        below_point(x, y).height == 1,
        below_point(x, y).anchor == Edge::Bottom,
        below_point(x, y).gravity == Edge::Bottom,
        below_point(x, y).slide_x,
        below_point(x, y).slide_y,
{
}

/// A content has grown exactly where it is wider or higher, as the numbers are that the bits
/// store without a sign; shrinking in one direction does not make up for the other.
pub proof fn law_grown(before: Extent, after: Extent)
    requires
        before.width <= 0x7f80_0000,
        before.height <= 0x7f80_0000,
        after.width <= 0x7f80_0000,
        after.height <= 0x7f80_0000,
    ensures
        grown(before, after) <==> before.width < after.width || before.height < after.height,
{
}

} // verus!
