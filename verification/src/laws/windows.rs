//! What holds of the windows.

use crate::tooltip::{grown, Extent};
use crate::windows::{
    all_refreshed, focused_window, found, has_surface, measured, must_grow, refreshed, without, Role, Tag,
    Window, WindowAction,
};
use vstd::prelude::*;

verus! {

/// Whether the compositor tells of a window by that object: its surface, its layer surface, or
/// its popup and the surface of that; not by its positioner.
pub open spec fn told_by(window: Window, object: u64) -> bool {
    ||| window.surface == object
    ||| window.role matches Role::Layer { layer_surface } && layer_surface == object
    ||| window.role matches Role::Popup { xdg_surface, .. } && xdg_surface == object
    ||| window.role matches Role::Popup { popup, .. } && popup == object
}

/// The window that is found is the first that the compositor tells of by that object, and none is
/// found exactly where there is no such window.
pub proof fn law_found(windows: Seq<Window>, object: u64, i: int)
    requires
        0 <= i < windows.len(),
        told_by(windows[i], object),
        forall|j: int| 0 <= j < i ==> !told_by(#[trigger] windows[j], object),
    ensures
        found(windows, object) == Some(windows[i]),
        focused_window(windows, Some(object)) == Some(windows[i]),
    decreases windows.len(),
{
    if i > 0 {
        let rest = windows.drop_first();
        assert(!told_by(windows[0], object));
        assert forall|j: int| 0 <= j < i - 1 implies !told_by(#[trigger] rest[j], object) by {
            assert(rest[j] == windows[j + 1]);
        }
        law_found(rest, object, i - 1);
    }
}

/// Nothing is found where the compositor tells of no window by that object, and nothing has the
/// pointer on it where no surface has.
pub proof fn law_not_found(windows: Seq<Window>, object: u64)
    requires
        forall|j: int| 0 <= j < windows.len() ==> !told_by(#[trigger] windows[j], object),
    ensures
        found(windows, object) is None,
        focused_window(windows, Some(object)) is None,
        focused_window(windows, None) is None,
    decreases windows.len(),
{
    if windows.len() > 0 {
        let rest = windows.drop_first();
        assert(!told_by(windows[0], object));
        assert forall|j: int| 0 <= j < rest.len() implies !told_by(#[trigger] rest[j], object) by {
            assert(rest[j] == windows[j + 1]);
        }
        law_not_found(rest, object);
    }
}

/// Closing takes out the windows with that surface and no other, and keeps the order.
pub proof fn law_closing(a: Seq<Window>, b: Seq<Window>, window: Window, surface: u64)
    ensures
        without(a + b, surface) == without(a, surface) + without(b, surface),
        without(seq![window], surface) == (if window.surface == surface {
            seq![]
        } else {
            seq![window]
        }),
    decreases b.len(),
{
    assert(seq![window].drop_last() =~= Seq::<Window>::empty());
    assert(without(Seq::<Window>::empty(), surface) =~= Seq::<Window>::empty());
    assert(without(seq![window], surface) =~= if window.surface == surface {
        seq![]
    } else {
        seq![window]
    });
    if b.len() == 0 {
        assert(a + b =~= a);
        assert(without(a, surface) + without(b, surface) =~= without(a, surface));
    } else {
        law_closing(a, b.drop_last(), window, surface);
        assert((a + b).drop_last() =~= a + b.drop_last());
        assert((a + b).last() == b.last());
        assert(without(a + b, surface) =~= without(a, surface) + without(b, surface));
    }
}

/// Measuring gives the popup with that surface the size it was measured with, and changes nothing
/// else of it, nor any other window. It must grow exactly where it is wider or higher than before.
pub proof fn law_measuring(windows: Seq<Window>, surface: u64, size: Extent, i: int)
    requires
        0 <= i < windows.len(),
        forall|j: int, k: int|
            0 <= j < windows.len() && 0 <= k < windows.len() && j != k ==> (#[trigger] windows[j]).surface
                != (#[trigger] windows[k]).surface,
    ensures
        ({
            let after = measured(windows, surface, size);
            &&& after.len() == windows.len()
            &&& after[i].surface == windows[i].surface && after[i].tag == windows[i].tag
            &&& windows[i].surface != surface ==> after[i] == windows[i]
            &&& windows[i].role is Layer ==> after[i] == windows[i]
            &&& windows[i].surface == surface ==> (windows[i].role matches Role::Popup {
                xdg_surface,
                popup,
                positioner,
                size: was,
            } ==> after[i].role == (Role::Popup { xdg_surface, popup, positioner, size }) && (must_grow(
                windows,
                surface,
                size,
            ) <==> grown(was, size)))
            &&& windows[i].surface == surface && windows[i].role is Layer ==> !must_grow(
                windows,
                surface,
                size,
            )
            &&& !has_surface(windows, surface) ==> !must_grow(windows, surface, size)
        }),
{
    if must_grow(windows, surface, size) {
        let j = choose|j: int|
            0 <= j < windows.len() && (#[trigger] windows[j]).surface == surface
                && crate::windows::too_large(windows[j], size);
        if windows[i].surface == surface {
            assert(i == j);
        }
    }
    if windows[i].surface == surface {
        if windows[i].role is Popup && grown(windows[i].role->size, size) {
            assert(crate::windows::too_large(windows[i], size));
        }
    }
}

/// When something has changed, a window is first marked as out of date. A bar is then drawn; a
/// tooltip is drawn only where its text has changed, after it was measured where it is a popup.
pub proof fn law_refreshing_one(window: Window, update_tooltip: bool)
    ensures
        ({
            let list = refreshed(window, update_tooltip);
            let surface = window.surface;
            &&& list.len() > 0 && list[0] == WindowAction::Outdate(surface)
            &&& window.tag == Tag::Bar ==> list.len() == 2 && list[1] == WindowAction::Redraw(surface)
            &&& window.tag == Tag::Tooltip && !update_tooltip ==> list.len() == 1
            &&& window.tag == Tag::Tooltip && update_tooltip && window.role is Layer ==> list.len() == 2
                && list[1] == WindowAction::Redraw(surface)
            &&& window.tag == Tag::Tooltip && update_tooltip && window.role is Popup ==> list.len() == 3
                && list[1] == WindowAction::Remeasure(surface) && list[2] == WindowAction::Redraw(surface)
        }),
{
}

/// The windows are brought up to date one after the other, each on its own.
pub proof fn law_refreshing_all(a: Seq<Window>, b: Seq<Window>, window: Window, update_tooltip: bool)
    ensures
        all_refreshed(a + b, update_tooltip) == all_refreshed(a, update_tooltip) + all_refreshed(
            b,
            update_tooltip,
        ),
        all_refreshed(seq![window], update_tooltip) == refreshed(window, update_tooltip),
    decreases b.len(),
{
    assert(seq![window].drop_last() =~= Seq::<Window>::empty());
    assert(all_refreshed(Seq::<Window>::empty(), update_tooltip) =~= Seq::<WindowAction>::empty());
    assert(all_refreshed(seq![window], update_tooltip) =~= refreshed(window, update_tooltip));
    if b.len() == 0 {
        assert(a + b =~= a);
        assert(all_refreshed(a, update_tooltip) + all_refreshed(b, update_tooltip) =~= all_refreshed(
            a,
            update_tooltip,
        ));
    } else {
        law_refreshing_all(a, b.drop_last(), window, update_tooltip);
        assert((a + b).drop_last() =~= a + b.drop_last());
        assert((a + b).last() == b.last());
        assert(all_refreshed(a + b, update_tooltip) =~= all_refreshed(a, update_tooltip)
            + all_refreshed(b, update_tooltip));
    }
}

/// There is a window with that surface exactly where closing it leaves fewer.
pub proof fn law_known_surfaces(windows: Seq<Window>, surface: u64)
    ensures
        without(windows, surface).len() <= windows.len(),
        has_surface(windows, surface) <==> without(windows, surface).len() < windows.len(),
    decreases windows.len(),
{
    if windows.len() > 0 {
        let head = windows.drop_last();
        law_known_surfaces(head, surface);
        if has_surface(head, surface) {
            let i = choose|i: int| 0 <= i < head.len() && (#[trigger] head[i]).surface == surface;
            assert(windows[i].surface == surface);
        }
        if has_surface(windows, surface) && windows.last().surface != surface {
            let i = choose|i: int| 0 <= i < windows.len() && (#[trigger] windows[i]).surface == surface;
            assert(head[i].surface == surface);
        }
        if windows.last().surface == surface {
            assert(windows[windows.len() - 1].surface == surface);
        }
    }
}

} // verus!
