//! The state of the bar, and how it follows what happens.

use crate::backlight::{backlight_tooltip, BacklightStatus};
use crate::battery::{BatteryStatus, BatteryView};
use crate::bitset::{BitSet, BITS};
use crate::clock::{legible, ClockFace, ClockView};
use crate::fx::map_hashes_consistently;
use crate::hyprland::{Command, HyprlandReqToken, HyprlandRequest, Query, ReqTokenView, RequestView};
use crate::icons::{Entries, Handle, IconCache};
use crate::theme::Palette;
use crate::tooltip::{below, below_point, ContentView, Placement, TooltipContent};
use crate::tray::{TrayItem, TrayItems};
use crate::volume::{volume_tooltip, Volume, VolumeView};
use crate::windows::{
    focused_window, has_surface, lemma_without, surfaces_differ, without, Window, WindowManager,
};
use rustc_hash::FxHashMap;
use vstd::prelude::*;

pub mod bar;
pub mod dispatch;
pub mod laws;
pub mod start;
pub mod surfaces;

verus! {

/// The height of the bar.
pub const BAR_HEIGHT: u32 = 35;

/// What the bar's own widgets report.
#[derive(Debug, PartialEq, Eq)]
pub enum Message {
    Hello,
    Workspace { id: u8 },
    WindowInfo,
    Battery,
    TrayTooltip(String),
    TrayAction(String),
    CloseTooltip,
    BatteryStop,
    Backlight,
    Volume,
}

impl Clone for Message {
    fn clone(&self) -> (res: Self)
        ensures
            res == *self,
    {
        match self {
            Message::Hello => Message::Hello,
            Message::Workspace { id } => Message::Workspace { id: *id },
            Message::WindowInfo => Message::WindowInfo,
            Message::Battery => Message::Battery,
            Message::TrayTooltip(service) => Message::TrayTooltip(service.clone()),
            Message::TrayAction(service) => Message::TrayAction(service.clone()),
            Message::CloseTooltip => Message::CloseTooltip,
            Message::BatteryStop => Message::BatteryStop,
            Message::Backlight => Message::Backlight,
            Message::Volume => Message::Volume,
        }
    }
}

/// What is shown of the active window.
pub struct WindowInfo {
    pub class: String,
    pub title: String,
    pub icon: Option<Handle>,
}

/// The model of a [`WindowInfo`].
pub struct WindowInfoView {
    pub class: Seq<char>,
    pub title: Seq<char>,
    pub icon: Option<Handle>,
}

impl View for WindowInfo {
    type V = WindowInfoView;

    open spec fn view(&self) -> WindowInfoView {
        WindowInfoView { class: self.class@, title: self.title@, icon: self.icon }
    }
}

/// A tooltip and the surface of its window.
pub struct Tooltip {
    pub content: TooltipContent,
    pub window: u64,
}

/// The model of a [`Tooltip`].
pub struct TooltipView {
    pub content: ContentView,
    pub window: u64,
}

impl View for Tooltip {
    type V = TooltipView;

    open spec fn view(&self) -> TooltipView {
        TooltipView { content: self.content@, window: self.window }
    }
}

/// What is to be done outside for the bar.
#[derive(Debug, PartialEq, Eq)]
pub enum Action {
    /// Something is sent to the compositor.
    Request(HyprlandRequest),
    /// The battery is read, for [`Runner::battery_read`].
    ReadBattery,
    /// The battery is polled from now on.
    WatchBattery,
    /// The battery is polled no longer.
    StopBattery,
    /// The brightness is read, for [`Runner::backlight_read`].
    ReadBacklight,
    /// A tray item's description is read, for [`Runner::tray_read`].
    ReadTray(String),
    /// A tray item is activated.
    ActivateTray(String),
    /// A popup is opened on a window at a place, for [`Runner::popup_opened`].
    OpenPopup { parent: Window, place: Placement, content: TooltipContent },
    /// The window with that surface is closed.
    ClosePopup(u64),
    /// The windows are brought up to date, as [`Runner::refresh`] says.
    Refresh { update_tooltip: bool },
}

/// The model of an [`Action`].
pub enum ActionView {
    Request(RequestView),
    ReadBattery,
    WatchBattery,
    StopBattery,
    ReadBacklight,
    ReadTray(Seq<char>),
    ActivateTray(Seq<char>),
    OpenPopup { parent: Window, place: Placement, content: ContentView },
    ClosePopup(u64),
    Refresh { update_tooltip: bool },
}

impl View for Action {
    type V = ActionView;

    open spec fn view(&self) -> ActionView {
        match self {
            Action::Request(request) => ActionView::Request(request@),
            Action::ReadBattery => ActionView::ReadBattery,
            Action::WatchBattery => ActionView::WatchBattery,
            Action::StopBattery => ActionView::StopBattery,
            Action::ReadBacklight => ActionView::ReadBacklight,
            Action::ReadTray(service) => ActionView::ReadTray(service@),
            Action::ActivateTray(service) => ActionView::ActivateTray(service@),
            Action::OpenPopup { parent, place, content } => ActionView::OpenPopup {
                parent: *parent,
                place: *place,
                content: content@,
            },
            Action::ClosePopup(surface) => ActionView::ClosePopup(*surface),
            Action::Refresh { update_tooltip } => ActionView::Refresh {
                update_tooltip: *update_tooltip,
            },
        }
    }
}

/// The models of a list of actions.
pub open spec fn actions(list: Seq<Action>) -> Seq<ActionView> {
    list.map_values(|a: Action| a@)
}

/// What the bar knows and shows.
pub struct Runner {
    dbus: bool,
    window_manager: WindowManager,
    callbacks: FxHashMap<u32, u64>,
    tooltip: Option<Tooltip>,
    theme: Palette,
    workspaces: BitSet,
    urgent_workspaces: BitSet,
    workspace_focused: usize,
    window: WindowInfo,
    tray_items: TrayItems,
    battery_status: Option<BatteryStatus>,
    backlight: Option<BacklightStatus>,
    volume: Volume,
    clock: ClockFace,
    icon_cache: IconCache,
}

/// The model of a [`Runner`].
#[verifier::ext_equal]
pub struct RunnerView {
    /// Whether the tray can be asked.
    pub dbus: bool,
    pub windows: Seq<Window>,
    pub focused: Option<u64>,
    /// The windows that wait for a callback, by callback.
    pub callbacks: Map<u32, u64>,
    pub tooltip: Option<TooltipView>,
    pub theme: Palette,
    pub workspaces: Set<int>,
    pub urgent: Set<int>,
    pub workspace_focused: usize,
    pub window: WindowInfoView,
    pub tray: Map<Seq<char>, TrayItem>,
    pub battery: Option<BatteryView>,
    pub backlight: Option<BacklightStatus>,
    pub volume: VolumeView,
    pub clock: ClockView,
    pub icons: Entries,
}

/// Whether the tooltip's window is the only one tagged as such and the only popup, no two windows
/// share a surface, and the focused workspace is none or one that can be told apart.
pub open spec fn consistent(runner: RunnerView) -> bool {
    &&& runner.workspace_focused == usize::MAX || runner.workspace_focused < BITS
    &&& surfaces_differ(runner.windows)
    &&& forall|i: int|
        0 <= i < runner.windows.len() ==> ((#[trigger] runner.windows[i]).tag is Tooltip <==> (
        runner.tooltip matches Some(t) && t.window == runner.windows[i].surface))
    &&& forall|i: int|
        0 <= i < runner.windows.len() ==> ((#[trigger] runner.windows[i]).tag is Tooltip
            <==> runner.windows[i].role is Popup)
    &&& runner.tooltip matches Some(t) ==> has_surface(runner.windows, t.window)
}

/// The model of an optional [`Tooltip`].
pub open spec fn tooltip_view(tooltip: Option<Tooltip>) -> Option<TooltipView> {
    match tooltip {
        Some(t) => Some(t@),
        None => None,
    }
}

/// The model of an optional [`BatteryStatus`].
pub open spec fn battery_view(battery: Option<BatteryStatus>) -> Option<BatteryView> {
    match battery {
        Some(b) => Some(b@),
        None => None,
    }
}

/// The surface that a window for the bar is made on.
#[derive(Debug, Clone, Copy, PartialEq, Eq, Structural)]
pub struct LayerSurface {
    /// As wide as the screen where it is zero.
    pub width: u32,
    pub height: u32,
    /// How much of the screen is kept free of other windows.
    pub exclusive_zone: i32,
    pub top: bool,
    pub bottom: bool,
    pub left: bool,
    pub right: bool,
}

/// A surface along the upper edge, that high, which nothing else lies under.
pub open spec fn along_the_top(height: u32) -> LayerSurface {
    LayerSurface {
        width: 0,
        height,
        exclusive_zone: height as i32,
        top: true,
        bottom: false,
        left: true,
        right: true,
    }
}

/// The surface of the bar lies along the upper edge, and nothing else does.
pub fn bar_surface() -> (res: LayerSurface)
    ensures
        res == along_the_top(BAR_HEIGHT),
{
    LayerSurface {
        width: 0,
        height: BAR_HEIGHT,
        exclusive_zone: BAR_HEIGHT as i32,
        top: true,
        bottom: false,
        left: true,
        right: true,
    }
}

/// Whether no tooltip can be asked for: one is open, or the pointer is on no window.
pub open spec fn refuses_tooltip(runner: RunnerView) -> bool {
    runner.tooltip is Some || focused_window(runner.windows, runner.focused) is None
}

/// The actions that open a tooltip, unless it is refused: none where the pointer is at no known
/// place.
pub open spec fn asked(runner: RunnerView, cursor: Option<u32>, content: ContentView) -> Option<
    Seq<ActionView>,
> {
    if refuses_tooltip(runner) {
        None
    } else {
        match cursor {
            Some(x) => Some(
                seq![
                    ActionView::OpenPopup {
                        parent: focused_window(runner.windows, runner.focused).unwrap(),
                        place: below_point(x, (BAR_HEIGHT + 1) as u32),
                        content,
                    },
                ],
            ),
            None => Some(seq![]),
        }
    }
}

/// The actions that open a tooltip, none of them where it is refused.
pub open spec fn opening(runner: RunnerView, cursor: Option<u32>, content: ContentView) -> Seq<ActionView> {
    match asked(runner, cursor, content) {
        Some(list) => list,
        None => seq![],
    }
}

/// The models of an optional list of actions.
pub open spec fn asked_actions(list: Option<Vec<Action>>) -> Option<Seq<ActionView>> {
    match list {
        Some(l) => Some(actions(l@)),
        None => None,
    }
}

/// The actions of an optional list, none where there is no list.
pub(crate) fn or_none(list: Option<Vec<Action>>) -> (res: Vec<Action>)
    ensures
        actions(res@) == (match list {
            Some(l) => actions(l@),
            None => seq![],
        }),
{
    match list {
        Some(list) => list,
        None => {
            let res: Vec<Action> = Vec::new();
            assert(actions(res@) =~= seq![]);
            res
        },
    }
}

/// The state once the tooltip is closed.
pub open spec fn closed(runner: RunnerView) -> RunnerView {
    match runner.tooltip {
        Some(t) => RunnerView { tooltip: None, windows: without(runner.windows, t.window), ..runner },
        None => runner,
    }
}

/// The actions that close the tooltip.
pub open spec fn closing(runner: RunnerView) -> Seq<ActionView> {
    match runner.tooltip {
        Some(t) => seq![ActionView::ClosePopup(t.window)],
        None => seq![],
    }
}

/// The state after a message of a widget.
pub open spec fn after_message(runner: RunnerView, message: Message) -> RunnerView {
    match message {
        Message::BatteryStop | Message::CloseTooltip => closed(runner),
        _ => runner,
    }
}

/// What a message of a widget makes happen.
pub open spec fn reaction(runner: RunnerView, message: Message, cursor: Option<u32>) -> Seq<ActionView> {
    match message {
        Message::Hello => seq![],
        Message::Workspace { id } => seq![
            ActionView::Request(RequestView::Command(Command::Workspace(id))),
        ],
        Message::WindowInfo => seq![
            ActionView::Request(
                RequestView::Query { query: Query::ActiveWindow, token: ReqTokenView::ActiveWindow },
            ),
        ],
        Message::Battery => if runner.battery is Some {
            seq![ActionView::ReadBattery]
        } else {
            seq![]
        },
        Message::Backlight => match runner.backlight {
            Some(backlight) => opening(runner, cursor, backlight_tooltip(backlight.percentage)),
            None => seq![],
        },
        Message::Volume => match volume_tooltip(runner.volume) {
            Some(content) => opening(runner, cursor, content),
            None => seq![],
        },
        Message::TrayTooltip(service) => if runner.dbus {
            seq![ActionView::ReadTray(service@)]
        } else {
            seq![]
        },
        Message::TrayAction(service) => if runner.dbus {
            seq![ActionView::ActivateTray(service@)]
        } else {
            seq![]
        },
        Message::BatteryStop => closing(runner) + seq![ActionView::StopBattery],
        Message::CloseTooltip => closing(runner),
    }
}

impl Runner {
    /// The model of the state.
    pub closed spec fn model(&self) -> RunnerView {
        RunnerView {
            dbus: self.dbus,
            windows: self.window_manager.windows@,
            focused: self.window_manager.focused,
            callbacks: self.callbacks@,
            tooltip: tooltip_view(self.tooltip),
            theme: self.theme,
            workspaces: self.workspaces@,
            urgent: self.urgent_workspaces@,
            workspace_focused: self.workspace_focused,
            window: self.window@,
            tray: self.tray_items@,
            battery: battery_view(self.battery_status),
            backlight: self.backlight,
            volume: self.volume@,
            clock: self.clock@,
            icons: self.icon_cache@,
        }
    }

    /// Whether the windows fit the tooltip, the clock can be read, and icons, tray items and
    /// callbacks are kept in order.
    pub closed spec fn wf(&self) -> bool {
        &&& consistent(self.model())
        &&& legible(self.clock@)
        &&& self.icon_cache.wf()
        &&& self.tray_items.wf()
        &&& map_hashes_consistently(self.callbacks)
    }

    /// Closes the tooltip, and tells which window that was.
    pub fn close_tooltip(&mut self) -> (res: Vec<Action>)
        requires
            old(self).wf(),
        ensures
            final(self).wf(),
            final(self).model() == closed(old(self).model()),
            actions(res@) == closing(old(self).model()),
    {
        let mut res: Vec<Action> = Vec::new();
        match self.tooltip.take() {
            Some(tooltip) => {
                self.window_manager.close_window(tooltip.window);
                res.push(Action::ClosePopup(tooltip.window));
                proof {
                    lemma_without(old(self).model().windows, tooltip.window);
                }
            },
            None => {},
        }
        assert(actions(res@) =~= closing(old(self).model()));
        res
    }

    /// Asks for a tooltip; refuses where one is open or the pointer is on no window.
    pub fn set_tooltip(&self, content: TooltipContent, cursor: Option<u32>) -> (res: Option<Vec<Action>>)
        ensures
            res is None <==> refuses_tooltip(self.model()),
            asked_actions(res) == asked(self.model(), cursor, content@),
    {
        if self.tooltip.is_some() {
            return None;
        }
        let window = self.window_manager.focused()?;
        let mut res: Vec<Action> = Vec::new();
        if let Some(x) = cursor {
            res.push(
                Action::OpenPopup { parent: window, place: below(x, BAR_HEIGHT + 1), content },
            );
        }
        assert(actions(res@) =~= asked(self.model(), cursor, content@).unwrap());
        Some(res)
    }

    /// Reacts to a message of a widget, while the pointer is at `cursor`.
    pub fn update(&mut self, message: Message, cursor: Option<u32>) -> (res: Vec<Action>)
        requires
            old(self).wf(),
        ensures
            final(self).wf(),
            final(self).model() == after_message(old(self).model(), message),
            actions(res@) == reaction(old(self).model(), message, cursor),
    {
        let mut res: Vec<Action> = Vec::new();
        match message {
            Message::Hello => {},
            Message::Workspace { id } => {
                res.push(Action::Request(HyprlandRequest::Command(Command::Workspace(id))));
            },
            Message::WindowInfo => {
                res.push(
                    Action::Request(
                        HyprlandRequest::Query {
                            query: Query::ActiveWindow,
                            token: HyprlandReqToken::ActiveWindow,
                        },
                    ),
                );
            },
            Message::Battery => {
                if self.battery_status.is_some() {
                    res.push(Action::ReadBattery);
                }
            },
            Message::Backlight => {
                match &self.backlight {
                    Some(backlight) => {
                        res = or_none(self.set_tooltip(backlight.tooltip(), cursor));
                    },
                    None => {},
                }
            },
            Message::Volume => {
                match self.volume.tooltip() {
                    Some(content) => {
                        res = or_none(self.set_tooltip(content, cursor));
                    },
                    None => {},
                }
            },
            Message::TrayTooltip(service) => {
                if self.dbus {
                    res.push(Action::ReadTray(service));
                }
            },
            Message::TrayAction(service) => {
                if self.dbus {
                    res.push(Action::ActivateTray(service));
                }
            },
            Message::BatteryStop => {
                res = self.close_tooltip();
                res.push(Action::StopBattery);
            },
            Message::CloseTooltip => {
                res = self.close_tooltip();
            },
        }
        assert(actions(res@) =~= reaction(old(self).model(), message, cursor));
        res
    }
}

} // verus!
