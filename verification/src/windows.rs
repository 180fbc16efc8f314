//! The windows of the bar.

use crate::tooltip::{grown, outgrows, Extent};
use vstd::prelude::*;

verus! {

/// What a window shows.
#[derive(Debug, Clone, Copy, PartialEq, Eq, Structural)]
pub enum Tag {
    Bar,
    Tooltip,
}

/// What a window is to the compositor, with the objects that make it so.
#[derive(Debug, Clone, Copy, PartialEq, Eq, Structural)]
pub enum Role {
    Layer { layer_surface: u64 },
    Popup { xdg_surface: u64, popup: u64, positioner: u64, size: Extent },
}

/// A window, known by its surface.
#[derive(Debug, Clone, Copy, PartialEq, Eq, Structural)]
pub struct Window {
    pub surface: u64,
    pub role: Role,
    pub tag: Tag,
}

/// Whether `object` is one that the compositor tells of the window by.
pub open spec fn made_of(window: Window, object: u64) -> bool {
    window.surface == object || match window.role {
        Role::Layer { layer_surface } => layer_surface == object,
        Role::Popup { xdg_surface, popup, .. } => xdg_surface == object || popup == object,
    }
}

/// The first window that `object` tells of.
pub open spec fn found(windows: Seq<Window>, object: u64) -> Option<Window>
    decreases windows.len(),
{
    if windows.len() == 0 {
        None
    } else if made_of(windows[0], object) {
        Some(windows[0])
    } else {
        found(windows.drop_first(), object)
    }
}

/// Whether there is a window with that surface.
pub open spec fn has_surface(windows: Seq<Window>, surface: u64) -> bool {
    exists|i: int| 0 <= i < windows.len() && (#[trigger] windows[i]).surface == surface
}

/// The windows but those with that surface.
pub open spec fn without(windows: Seq<Window>, surface: u64) -> Seq<Window>
    decreases windows.len(),
{
    if windows.len() == 0 {
        Seq::empty()
    } else if windows.last().surface == surface {
        without(windows.drop_last(), surface)
    } else {
        without(windows.drop_last(), surface).push(windows.last())
    }
}

/// Whether no two windows share a surface.
pub open spec fn surfaces_differ(windows: Seq<Window>) -> bool {
    forall|i: int, j: int|
        0 <= i < windows.len() && 0 <= j < windows.len() && i != j ==> (#[trigger] windows[i]).surface != (
        #[trigger] windows[j]).surface
}

/// A window whose popup, if it is one, has another size.
pub open spec fn sized(window: Window, size: Extent) -> Window {
    match window.role {
        Role::Layer { .. } => window,
        Role::Popup { xdg_surface, popup, positioner, .. } => Window {
            role: Role::Popup { xdg_surface, popup, positioner, size },
            ..window
        },
    }
}

/// Whether that size is wider or higher than the window's popup was.
pub open spec fn too_large(window: Window, size: Extent) -> bool {
    window.role matches Role::Popup { size: before, .. } && grown(before, size)
}

/// The windows after those with that surface were measured.
pub open spec fn measured(windows: Seq<Window>, surface: u64, size: Extent) -> Seq<Window> {
    windows.map_values(
        |w: Window|
            if w.surface == surface {
                sized(w, size)
            } else {
                w
            },
    )
}

/// Whether the popup with that surface has to be made larger to take that size.
pub open spec fn must_grow(windows: Seq<Window>, surface: u64, size: Extent) -> bool {
    exists|i: int|
        0 <= i < windows.len() && (#[trigger] windows[i]).surface == surface && too_large(
            windows[i],
            size,
        )
}

/// What is done to a window when something has changed.
#[derive(Debug, Clone, Copy, PartialEq, Eq, Structural)]
pub enum WindowAction {
    /// What it shows is out of date.
    Outdate(u64),
    /// Its content is measured anew, and it grows where the content has.
    Remeasure(u64),
    /// It is drawn anew.
    Redraw(u64),
}

/// What is done to one window when something has changed, in the tooltip's text or elsewhere.
pub open spec fn refreshed(window: Window, update_tooltip: bool) -> Seq<WindowAction> {
    let outdate = seq![WindowAction::Outdate(window.surface)];
    let redraw = seq![WindowAction::Redraw(window.surface)];
    match window.tag {
        Tag::Bar => outdate + redraw,
        Tag::Tooltip => if update_tooltip {
            match window.role {
                Role::Layer { .. } => outdate + redraw,
                Role::Popup { .. } => outdate + seq![WindowAction::Remeasure(window.surface)] + redraw,
            }
        } else {
            outdate
        },
    }
}

/// What is done to all windows when something has changed.
pub open spec fn all_refreshed(windows: Seq<Window>, update_tooltip: bool) -> Seq<WindowAction>
    decreases windows.len(),
{
    if windows.len() == 0 {
        Seq::empty()
    } else {
        all_refreshed(windows.drop_last(), update_tooltip) + refreshed(windows.last(), update_tooltip)
    }
}

/// The windows, and which of them the pointer is on.
pub struct WindowManager {
    pub windows: Vec<Window>,
    pub focused: Option<u64>,
}

impl WindowManager {
    /// No window yet.
    pub fn new() -> (res: Self)
        ensures
            res.windows@ == Seq::<Window>::empty(),
            res.focused == None::<u64>,
    {
        WindowManager { windows: Vec::new(), focused: None }
    }

    /// Takes in a window.
    pub fn create_window(&mut self, window: Window)
        ensures
            final(self).windows@ == old(self).windows@.push(window),
            final(self).focused == old(self).focused,
    {
        self.windows.push(window);
    }

    /// Forgets the window with that surface.
    pub fn close_window(&mut self, surface: u64)
        ensures
            final(self).windows@ == without(old(self).windows@, surface),
            final(self).focused == old(self).focused,
    {
        let mut rest: Vec<Window> = Vec::new();
        let mut i: usize = 0;
        while i < self.windows.len()
            invariant
                i <= self.windows.len(),
                *self == *old(self),
                rest@ == without(self.windows@.take(i as int), surface),
            decreases self.windows.len() - i,
        {
            let window = self.windows[i];
            assert(self.windows@.take(i + 1).drop_last() =~= self.windows@.take(i as int));
            if window.surface != surface {
                rest.push(window);
            }
            i = i + 1;
        }
        assert(self.windows@.take(self.windows.len() as int) =~= self.windows@);
        self.windows = rest;
    }

    /// The first window that `object` tells of.
    pub fn find_by_object(&self, object: u64) -> (res: Option<Window>)
        ensures
            res == found(self.windows@, object),
    {
        let mut i: usize = 0;
        assert(self.windows@.skip(0) =~= self.windows@);
        while i < self.windows.len()
            invariant
                i <= self.windows.len(),
                found(self.windows@.skip(i as int), object) == found(self.windows@, object),
            decreases self.windows.len() - i,
        {
            let window = self.windows[i];
            assert(self.windows@.skip(i as int).drop_first() =~= self.windows@.skip(i + 1));
            if window.surface == object {
                return Some(window);
            }
            match window.role {
                Role::Layer { layer_surface } => {
                    if layer_surface == object {
                        return Some(window);
                    }
                },
                Role::Popup { xdg_surface, popup, positioner: _, size: _ } => {
                    if xdg_surface == object || popup == object {
                        return Some(window);
                    }
                },
            }
            i = i + 1;
        }
        assert(self.windows@.skip(self.windows.len() as int) =~= Seq::<Window>::empty());
        None
    }

    /// The window that the pointer is on.
    pub fn focused(&self) -> (res: Option<Window>)
        ensures
            res == focused_window(self.windows@, self.focused),
    {
        match self.focused {
            Some(surface) => self.find_by_object(surface),
            None => None,
        }
    }

    /// Takes over the size that the popup with that surface was measured with, and tells whether
    /// it has to be made larger for that.
    pub fn measure(&mut self, surface: u64, size: Extent) -> (grows: bool)
        ensures
            final(self).windows@ == measured(old(self).windows@, surface, size),
            final(self).focused == old(self).focused,
            grows == must_grow(old(self).windows@, surface, size),
    {
        let mut grows = false;
        let mut i: usize = 0;
        let ghost before = self.windows@;
        while i < self.windows.len()
            invariant
                i <= self.windows.len(),
                self.windows@.len() == before.len(),
                self.focused == old(self).focused,
                forall|j: int| 0 <= j < i ==> #[trigger] self.windows@[j] == measured(before, surface, size)[j],
                forall|j: int| i <= j < before.len() ==> #[trigger] self.windows@[j] == before[j],
                grows == must_grow(before.take(i as int), surface, size),
            decreases self.windows.len() - i,
        {
            let window = self.windows[i];
            let ghost head = before.take(i as int);
            let ghost next = before.take(i + 1);
            proof {
                assert(next[i as int] == window);
                assert(forall|j: int| 0 <= j < i ==> #[trigger] next[j] == head[j]);
            }
            if window.surface == surface {
                match window.role {
                    Role::Layer { layer_surface: _ } => {},
                    Role::Popup { xdg_surface, popup, positioner, size: was } => {
                        if outgrows(was, size) {
                            grows = true;
                        }
                        self.windows.set(
                            i,
                            Window {
                                surface: window.surface,
                                role: Role::Popup { xdg_surface, popup, positioner, size },
                                tag: window.tag,
                            },
                        );
                    },
                }
            }
            proof {
                if must_grow(head, surface, size) {
                    let j = choose|j: int|
                        0 <= j < head.len() && (#[trigger] head[j]).surface == surface && too_large(
                            head[j],
                            size,
                        );
                    assert(next[j] == head[j]);
                }
            }
            i = i + 1;
        }
        assert(before.take(before.len() as int) =~= before);
        assert(self.windows@ =~= measured(before, surface, size));
        grows
    }

    /// What is to be done to the windows when something has changed.
    pub fn refresh(&self, update_tooltip: bool) -> (res: Vec<WindowAction>)
        ensures
            res@ == all_refreshed(self.windows@, update_tooltip),
    {
        let mut res: Vec<WindowAction> = Vec::new();
        let mut i: usize = 0;
        while i < self.windows.len()
            invariant
                i <= self.windows.len(),
                res@ == all_refreshed(self.windows@.take(i as int), update_tooltip),
            decreases self.windows.len() - i,
        {
            let window = self.windows[i];
            let ghost before = res@;
            assert(self.windows@.take(i + 1).drop_last() =~= self.windows@.take(i as int));
            res.push(WindowAction::Outdate(window.surface));
            match window.tag {
                Tag::Bar => {
                    res.push(WindowAction::Redraw(window.surface));
                },
                Tag::Tooltip => {
                    if update_tooltip {
                        match window.role {
                            Role::Layer { layer_surface: _ } => {},
                            Role::Popup { xdg_surface: _, popup: _, positioner: _, size: _ } => {
                                res.push(WindowAction::Remeasure(window.surface));
                            },
                        }
                        res.push(WindowAction::Redraw(window.surface));
                    }
                },
            }
            assert(res@ =~= before + refreshed(window, update_tooltip));
            i = i + 1;
        }
        assert(self.windows@.take(self.windows.len() as int) =~= self.windows@);
        res
    }
}

/// The window that the pointer is on.
pub open spec fn focused_window(windows: Seq<Window>, focused: Option<u64>) -> Option<Window> {
    match focused {
        Some(surface) => found(windows, surface),
        None => None,
    }
}

/// Where no window has that surface, none is closed.
pub proof fn lemma_without_none(windows: Seq<Window>, surface: u64)
    requires
        !has_surface(windows, surface),
    ensures
        without(windows, surface) == windows,
    decreases windows.len(),
{
    if windows.len() > 0 {
        let head = windows.drop_last();
        assert(windows.last() == windows[windows.len() - 1]);
        assert forall|i: int| 0 <= i < head.len() implies (#[trigger] head[i]).surface != surface by {
            assert(head[i] == windows[i]);
        }
        lemma_without_none(head, surface);
        assert(head.push(windows.last()) =~= windows);
    } else {
        assert(without(windows, surface) =~= windows);
    }
}

/// What is done to one window is among what is done to all.
proof fn lemma_refreshed_within(windows: Seq<Window>, update_tooltip: bool, i: int, action: WindowAction)
    requires
        0 <= i < windows.len(),
        refreshed(windows[i], update_tooltip).contains(action),
    ensures
        all_refreshed(windows, update_tooltip).contains(action),
    decreases windows.len(),
{
    let head = all_refreshed(windows.drop_last(), update_tooltip);
    let tail = refreshed(windows.last(), update_tooltip);
    let all = all_refreshed(windows, update_tooltip);
    if i == windows.len() - 1 {
        let k = choose|k: int| 0 <= k < tail.len() && tail[k] == action;
        assert(all[head.len() + k] == action);
    } else {
        assert(windows.drop_last()[i] == windows[i]);
        lemma_refreshed_within(windows.drop_last(), update_tooltip, i, action);
        let k = choose|k: int| 0 <= k < head.len() && head[k] == action;
        assert(all[k] == action);
    }
}

/// The surface that an action is for.
pub open spec fn target(action: WindowAction) -> u64 {
    match action {
        WindowAction::Outdate(surface) => surface,
        WindowAction::Remeasure(surface) => surface,
        WindowAction::Redraw(surface) => surface,
    }
}

/// What is done to all windows is done to one of them.
proof fn lemma_refreshed_from(windows: Seq<Window>, update_tooltip: bool, action: WindowAction) -> (i: int)
    requires
        all_refreshed(windows, update_tooltip).contains(action),
    ensures
        0 <= i < windows.len(),
        refreshed(windows[i], update_tooltip).contains(action),
        windows[i].surface == target(action),
    decreases windows.len(),
{
    let all = all_refreshed(windows, update_tooltip);
    let k = choose|k: int| 0 <= k < all.len() && all[k] == action;
    let head = all_refreshed(windows.drop_last(), update_tooltip);
    let tail = refreshed(windows.last(), update_tooltip);
    if k < head.len() {
        assert(head[k] == action);
        let i = lemma_refreshed_from(windows.drop_last(), update_tooltip, action);
        assert(windows.drop_last()[i] == windows[i]);
        i
    } else {
        assert(tail[k - head.len()] == action);
        windows.len() - 1
    }
}

/// Whenever something has changed, every window is out of date, and every bar is drawn anew.
pub proof fn law_bars_are_redrawn(windows: Seq<Window>, update_tooltip: bool, i: int)
    requires
        0 <= i < windows.len(),
    ensures
        all_refreshed(windows, update_tooltip).contains(WindowAction::Outdate(windows[i].surface)),
        windows[i].tag is Bar ==> all_refreshed(windows, update_tooltip).contains(
            WindowAction::Redraw(windows[i].surface),
        ),
{
    let one = refreshed(windows[i], update_tooltip);
    assert(one[0] == WindowAction::Outdate(windows[i].surface));
    lemma_refreshed_within(windows, update_tooltip, i, WindowAction::Outdate(windows[i].surface));
    if windows[i].tag is Bar {
        assert(one[1] == WindowAction::Redraw(windows[i].surface));
        lemma_refreshed_within(windows, update_tooltip, i, WindowAction::Redraw(windows[i].surface));
    }
}

/// A tooltip is drawn anew exactly when its text has changed, and where it is a popup, measured
/// anew exactly then.
pub proof fn law_tooltips_are_redrawn_when_told(windows: Seq<Window>, update_tooltip: bool, i: int)
    requires
        0 <= i < windows.len(),
        surfaces_differ(windows),
        windows[i].tag is Tooltip,
    ensures
        all_refreshed(windows, update_tooltip).contains(WindowAction::Redraw(windows[i].surface))
            <==> update_tooltip,
        all_refreshed(windows, update_tooltip).contains(WindowAction::Remeasure(windows[i].surface))
            <==> update_tooltip && windows[i].role is Popup,
{
    let one = refreshed(windows[i], update_tooltip);
    let redraw = WindowAction::Redraw(windows[i].surface);
    let remeasure = WindowAction::Remeasure(windows[i].surface);
    if update_tooltip {
        assert(one.last() == redraw);
        lemma_refreshed_within(windows, update_tooltip, i, redraw);
        if windows[i].role is Popup {
            assert(one[1] == remeasure);
            lemma_refreshed_within(windows, update_tooltip, i, remeasure);
        }
    } else {
        if all_refreshed(windows, update_tooltip).contains(redraw) {
            let j = lemma_refreshed_from(windows, update_tooltip, redraw);
            assert(i == j);
        }
    }
    if all_refreshed(windows, update_tooltip).contains(remeasure) {
        let j = lemma_refreshed_from(windows, update_tooltip, remeasure);
        assert(i == j);
    }
}

/// Closing the window of a surface leaves the others as they are.
pub proof fn lemma_without(windows: Seq<Window>, surface: u64)
    ensures
        !has_surface(without(windows, surface), surface),
        forall|i: int|
            0 <= i < without(windows, surface).len() ==> windows.contains(
                #[trigger] without(windows, surface)[i],
            ),
        forall|i: int|
            0 <= i < windows.len() && (#[trigger] windows[i]).surface != surface ==> without(
                windows,
                surface,
            ).contains(windows[i]),
        surfaces_differ(windows) ==> surfaces_differ(without(windows, surface)),
    decreases windows.len(),
{
    if windows.len() > 0 {
        let head = windows.drop_last();
        let rest = without(head, surface);
        let all = without(windows, surface);
        lemma_without(head, surface);
        assert forall|i: int| 0 <= i < all.len() implies windows.contains(#[trigger] all[i]) && all[i].surface
            != surface by {
            if i < rest.len() {
                assert(all[i] == rest[i]);
                assert(head.contains(rest[i]));
                let j = choose|j: int| 0 <= j < head.len() && head[j] == rest[i];
                assert(windows[j] == rest[i]);
            } else {
                assert(windows[windows.len() - 1] == all[i]);
            }
        }
        assert forall|i: int| 0 <= i < windows.len() && (#[trigger] windows[i]).surface != surface implies all.contains(
            windows[i],
        ) by {
            if i < head.len() {
                assert(head[i] == windows[i]);
                assert(rest.contains(head[i]));
                let j = choose|j: int| 0 <= j < rest.len() && rest[j] == head[i];
                assert(all[j] == windows[i]);
            } else {
                assert(all[all.len() - 1] == windows[i]);
            }
        }
        if surfaces_differ(windows) {
            assert(surfaces_differ(head)) by {
                assert forall|i: int, j: int|
                    0 <= i < head.len() && 0 <= j < head.len() && i != j implies (#[trigger] head[i]).surface
                    != (#[trigger] head[j]).surface by {
                    assert(windows[i] == head[i] && windows[j] == head[j]);
                }
            }
            assert forall|i: int, j: int|
                0 <= i < all.len() && 0 <= j < all.len() && i != j implies (#[trigger] all[i]).surface != (
            #[trigger] all[j]).surface by {
                let l = windows.len() - 1;
                if i < rest.len() {
                    assert(all[i] == rest[i]);
                    let k = choose|k: int| 0 <= k < head.len() && head[k] == rest[i];
                    assert(windows[k] == rest[i]);
                    assert(windows[k].surface != windows[l].surface);
                }
                if j < rest.len() {
                    assert(all[j] == rest[j]);
                    let k = choose|k: int| 0 <= k < head.len() && head[k] == rest[j];
                    assert(windows[k] == rest[j]);
                    assert(windows[k].surface != windows[l].surface);
                }
            }
        }
    }
}

} // verus!
