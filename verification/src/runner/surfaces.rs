//! How the state follows what happens to the windows.

use super::{consistent, Runner, RunnerView, Tooltip, TooltipView};
use crate::float::{equal, is_equal, INFINITY};
use crate::theme::{Color, Palette, Rgb};
use crate::tooltip::{ContentView, Extent, Placement, TooltipContent};
use crate::windows::{
    all_refreshed, focused_window, found, has_surface, measured, must_grow, Role, Tag, Window,
    WindowAction,
};
use vstd::prelude::*;

verus! {

/// What a popup is opened on.
#[derive(Debug, Clone, Copy, PartialEq, Eq, Structural)]
pub enum Attachment {
    /// A layer surface, which takes the popup over.
    Layer(u64),
    /// Another popup's surface, which is the parent.
    Popup(u64),
}

/// How a popup is to be opened.
#[derive(Debug, Clone, Copy, PartialEq, Eq, Structural)]
pub struct PopupPlan {
    pub attachment: Attachment,
    pub place: Placement,
    pub size: Extent,
}

/// What a popup is opened on where its parent has that role.
pub open spec fn attached_to(role: Role) -> Attachment {
    match role {
        Role::Layer { layer_surface } => Attachment::Layer(layer_surface),
        Role::Popup { xdg_surface, .. } => Attachment::Popup(xdg_surface),
    }
}

/// Whether a popup of that area, by its bits, can be opened: it takes some room, and not all.
pub open spec fn openable(area: u32) -> bool {
    !equal(area, 0) && !equal(area, INFINITY)
}

/// How a popup of that size and area is opened on a window, if it can be.
pub open spec fn planned(parent: Window, place: Placement, size: Extent, area: u32) -> Option<PopupPlan> {
    if openable(area) {
        Some(PopupPlan { attachment: attached_to(parent.role), place, size })
    } else {
        None
    }
}

/// How a popup of that size and area is to be opened, if it can be.
pub fn popup(parent: &Window, place: Placement, size: Extent, area: u32) -> (res: Option<PopupPlan>)
    ensures
        res == planned(*parent, place, size, area),
{
    if is_equal(area, 0) {
        return None;
    }
    if is_equal(area, INFINITY) {
        return None;
    }
    let attachment = match parent.role {
        Role::Layer { layer_surface } => Attachment::Layer(layer_surface),
        Role::Popup { xdg_surface, popup: _, positioner: _, size: _ } => Attachment::Popup(xdg_surface),
    };
    Some(PopupPlan { attachment, place, size })
}

/// A popup that was opened.
#[derive(Debug, Clone, Copy, PartialEq, Eq, Structural)]
pub struct Popup {
    pub surface: u64,
    pub xdg_surface: u64,
    pub popup: u64,
    pub positioner: u64,
    pub size: Extent,
}

impl PopupPlan {
    /// The popup that was opened as planned, with the objects that make it.
    pub fn opened(&self, surface: u64, xdg_surface: u64, popup: u64, positioner: u64) -> (res: Popup)
        ensures
            res == (Popup { surface, xdg_surface, popup, positioner, size: self.size }),
    {
        Popup { surface, xdg_surface, popup, positioner, size: self.size }
    }
}

/// The window of a popup.
pub open spec fn popup_window(popup: Popup) -> Window {
    Window {
        surface: popup.surface,
        role: Role::Popup {
            xdg_surface: popup.xdg_surface,
            popup: popup.popup,
            positioner: popup.positioner,
            size: popup.size,
        },
        tag: Tag::Tooltip,
    }
}

/// The state after a popup was opened for a tooltip, or could not be.
pub open spec fn after_popup(runner: RunnerView, content: ContentView, opened: Option<Popup>) -> RunnerView {
    match opened {
        Some(popup) => RunnerView {
            tooltip: Some(TooltipView { content, window: popup.surface }),
            windows: runner.windows.push(popup_window(popup)),
            ..runner
        },
        None => runner,
    }
}

/// What the pointer does on a window.
#[derive(Debug, Clone, Copy, PartialEq, Eq, Structural)]
pub enum MouseEvent {
    CursorEntered,
    CursorLeft,
    /// It moves there, or a button or the wheel does.
    Other,
}

/// What the compositor tells of the windows.
#[derive(Debug, Clone, Copy, PartialEq, Eq, Structural)]
pub enum SurfaceEvent {
    Resize { object: u64, width: u32, height: u32 },
    Rescale { surface: u64, factor: i32 },
    Enter { surface: u64, serial: u32 },
    Mouse(MouseEvent),
    CallbackDone(u32),
}

/// What is done to a window on account of that, one after the other.
#[derive(Debug, Clone, Copy, PartialEq, Eq, Structural)]
pub enum SurfaceAction {
    Resize { window: u64, width: u32, height: u32 },
    Rescale { window: u64, factor: i32 },
    /// Its widgets are told what the pointer does.
    Mouse { window: u64, event: MouseEvent },
    /// The shape of the pointer is set.
    Enter { window: u64, serial: u32 },
    /// The pointer is on this surface now, as [`Runner::focus`] takes over.
    Focus(u64),
    /// The pointer is on no surface now, as [`Runner::focus`] takes over.
    Unfocus,
    /// The window that waited for a callback is drawn.
    Draw(u64),
}

/// What is done on account of what the compositor tells, where it tells of a window that is
/// there.
pub open spec fn surface_actions(runner: RunnerView, event: SurfaceEvent) -> Option<Seq<SurfaceAction>> {
    match event {
        SurfaceEvent::Resize { object, width, height } => match found(runner.windows, object) {
            Some(window) => Some(
                seq![SurfaceAction::Resize { window: window.surface, width, height }],
            ),
            None => None,
        },
        SurfaceEvent::Rescale { surface, factor } => match found(runner.windows, surface) {
            Some(window) => Some(seq![SurfaceAction::Rescale { window: window.surface, factor }]),
            None => None,
        },
        SurfaceEvent::Enter { surface, serial } => match found(runner.windows, surface) {
            Some(window) => Some(
                seq![
                    SurfaceAction::Mouse { window: window.surface, event: MouseEvent::CursorEntered },
                    SurfaceAction::Enter { window: window.surface, serial },
                    SurfaceAction::Focus(surface),
                ],
            ),
            None => None,
        },
        SurfaceEvent::Mouse(event) => match focused_window(runner.windows, runner.focused) {
            Some(window) => {
                let told = seq![SurfaceAction::Mouse { window: window.surface, event }];
                if event is CursorLeft {
                    Some(told + seq![SurfaceAction::Unfocus])
                } else {
                    Some(told)
                }
            },
            None => None,
        },
        SurfaceEvent::CallbackDone(callback) => Some(
            seq![SurfaceAction::Draw(runner.callbacks[callback])],
        ),
    }
}

/// The state after the compositor told something of the windows: a callback comes once.
pub open spec fn after_surface_event(runner: RunnerView, event: SurfaceEvent) -> RunnerView {
    match event {
        SurfaceEvent::CallbackDone(callback) => RunnerView {
            callbacks: runner.callbacks.remove(callback),
            ..runner
        },
        _ => runner,
    }
}

/// Whether what the compositor tells can be taken: a callback is one that a window waits for.
pub open spec fn expected(runner: RunnerView, event: SurfaceEvent) -> bool {
    event matches SurfaceEvent::CallbackDone(callback) ==> runner.callbacks.contains_key(callback)
}

/// The model of an optional list of surface actions.
pub open spec fn surface_view(list: Option<Vec<SurfaceAction>>) -> Option<Seq<SurfaceAction>> {
    match list {
        Some(l) => Some(l@),
        None => None,
    }
}

/// The background of a window.
pub open spec fn background_of(palette: Palette, tag: Tag) -> Color {
    match tag {
        Tag::Bar => palette.background,
        Tag::Tooltip => Color { rgb: Rgb { r: 0, g: 0, b: 0 }, alpha: 0 },
    }
}

impl Runner {
    /// The first window that `object` tells of.
    pub fn find(&self, object: u64) -> (res: Option<Window>)
        ensures
            res == found(self.model().windows, object),
    {
        self.window_manager.find_by_object(object)
    }

    /// Whether there is a window with that surface.
    pub fn knows(&self, surface: u64) -> (res: bool)
        ensures
            res == has_surface(self.model().windows, surface),
    {
        let mut i: usize = 0;
        while i < self.window_manager.windows.len()
            invariant
                i <= self.window_manager.windows.len(),
                forall|j: int|
                    0 <= j < i ==> (#[trigger] self.window_manager.windows@[j]).surface != surface,
            decreases self.window_manager.windows.len() - i,
        {
            if self.window_manager.windows[i].surface == surface {
                return true;
            }
            i = i + 1;
        }
        false
    }

    /// Whether a tooltip is open.
    pub fn has_tooltip(&self) -> (res: bool)
        ensures
            res == (self.model().tooltip is Some),
    {
        self.tooltip.is_some()
    }

    /// Takes over the popup that was opened for a tooltip, if it could be.
    pub fn popup_opened(&mut self, content: TooltipContent, opened: Option<Popup>)
        requires
            old(self).wf(),
            old(self).model().tooltip is None,
            opened matches Some(popup) ==> !has_surface(old(self).model().windows, popup.surface),
        ensures
            final(self).wf(),
            final(self).model() == after_popup(old(self).model(), content@, opened),
    {
        match opened {
            Some(popup) => {
                self.window_manager.create_window(
                    Window {
                        surface: popup.surface,
                        role: Role::Popup {
                            xdg_surface: popup.xdg_surface,
                            popup: popup.popup,
                            positioner: popup.positioner,
                            size: popup.size,
                        },
                        tag: Tag::Tooltip,
                    },
                );
                self.tooltip = Some(Tooltip { content, window: popup.surface });
                proof {
                    let n = old(self).model().windows.len() as int;
                    assert(self.model().windows[n] == popup_window(popup));
                    assert(has_surface(self.model().windows, popup.surface));
                }
            },
            None => {},
        }
    }

    /// What is to be done to the windows when something has changed.
    pub fn refresh(&self, update_tooltip: bool) -> (res: Vec<WindowAction>)
        ensures
            res@ == all_refreshed(self.model().windows, update_tooltip),
    {
        self.window_manager.refresh(update_tooltip)
    }

    /// Takes over the size that a popup was measured with, and tells whether it has to be made
    /// larger for that.
    pub fn popup_measured(&mut self, surface: u64, size: Extent) -> (grows: bool)
        requires
            old(self).wf(),
        ensures
            final(self).wf(),
            final(self).model() == (RunnerView {
                windows: measured(old(self).model().windows, surface, size),
                ..old(self).model()
            }),
            grows == must_grow(old(self).model().windows, surface, size),
    {
        let res = self.window_manager.measure(surface, size);
        proof {
            lemma_measured(old(self).model(), surface, size);
        }
        res
    }

    /// What is to be done on account of what the compositor tells of the windows, where it tells
    /// of one that is there.
    pub fn dispatch_wayland_event(&mut self, event: SurfaceEvent) -> (res: Option<Vec<SurfaceAction>>)
        requires
            old(self).wf(),
            expected(old(self).model(), event),
        ensures
            final(self).wf(),
            final(self).model() == after_surface_event(old(self).model(), event),
            surface_view(res) == surface_actions(old(self).model(), event),
    {
        broadcast use vstd::std_specs::hash::group_hash_axioms;

        let mut res: Vec<SurfaceAction> = Vec::new();
        match event {
            SurfaceEvent::Resize { object, width, height } => {
                let window = self.window_manager.find_by_object(object)?;
                res.push(SurfaceAction::Resize { window: window.surface, width, height });
            },
            SurfaceEvent::Rescale { surface, factor } => {
                let window = self.window_manager.find_by_object(surface)?;
                res.push(SurfaceAction::Rescale { window: window.surface, factor });
            },
            SurfaceEvent::Enter { surface, serial } => {
                let window = self.window_manager.find_by_object(surface)?;
                res.push(
                    SurfaceAction::Mouse { window: window.surface, event: MouseEvent::CursorEntered },
                );
                res.push(SurfaceAction::Enter { window: window.surface, serial });
                res.push(SurfaceAction::Focus(surface));
            },
            SurfaceEvent::Mouse(event) => {
                let window = self.window_manager.focused()?;
                res.push(SurfaceAction::Mouse { window: window.surface, event });
                match event {
                    MouseEvent::CursorLeft => {
                        res.push(SurfaceAction::Unfocus);
                    },
                    _ => {},
                }
            },
            SurfaceEvent::CallbackDone(callback) => {
                let window = self.callbacks.remove(&callback).unwrap();
                res.push(SurfaceAction::Draw(window));
            },
        }
        assert(res@ =~= surface_actions(old(self).model(), event).unwrap());
        Some(res)
    }

    /// Takes over that a window waits for a callback, to be drawn then.
    pub fn await_callback(&mut self, callback: u32, window: u64)
        requires
            old(self).wf(),
        ensures
            final(self).wf(),
            final(self).model() == (RunnerView {
                callbacks: old(self).model().callbacks.insert(callback, window),
                ..old(self).model()
            }),
    {
        broadcast use vstd::std_specs::hash::group_hash_axioms;

        self.callbacks.insert(callback, window);
    }

    /// Whether a window waits for a callback.
    pub fn awaits(&self, callback: u32) -> (res: bool)
        requires
            self.wf(),
        ensures
            res == self.model().callbacks.contains_key(callback),
    {
        broadcast use vstd::std_specs::hash::group_hash_axioms;

        self.callbacks.contains_key(&callback)
    }

    /// Takes over which surface the pointer is on.
    pub fn focus(&mut self, surface: Option<u64>)
        requires
            old(self).wf(),
        ensures
            final(self).wf(),
            final(self).model() == (RunnerView { focused: surface, ..old(self).model() }),
    {
        self.window_manager.focused = surface;
    }

    /// The window that the pointer is on.
    pub fn focused(&self) -> (res: Option<Window>)
        ensures
            res == focused_window(self.model().windows, self.model().focused),
    {
        self.window_manager.focused()
    }

    /// The background of a window.
    pub fn background(&self, tag: Tag) -> (res: Color)
        ensures
            res == background_of(self.model().theme, tag),
    {
        match tag {
            Tag::Bar => self.theme.background,
            Tag::Tooltip => Color { rgb: Rgb { r: 0, g: 0, b: 0 }, alpha: 0 },
        }
    }
}

/// Measuring a popup changes no surface and no tag.
pub proof fn lemma_measured(runner: RunnerView, surface: u64, size: Extent)
    requires
        consistent(runner),
    ensures
        consistent(
            RunnerView { windows: measured(runner.windows, surface, size), ..runner },
        ),
{
    let after = measured(runner.windows, surface, size);
    assert forall|i: int| 0 <= i < after.len() implies (#[trigger] after[i]).surface
        == runner.windows[i].surface && after[i].tag == runner.windows[i].tag by {}
    if runner.tooltip is Some {
        let t = runner.tooltip.unwrap();
        let i = choose|i: int|
            0 <= i < runner.windows.len() && (#[trigger] runner.windows[i]).surface == t.window;
        assert(after[i].surface == t.window);
    }
}

} // verus!
