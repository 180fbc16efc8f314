//! What the bar shows, from left to right.

use super::{Message, Runner, RunnerView};
use crate::bitset::BITS;
use crate::clock::ClockView;
use crate::icons::{pictured, Handle, Picture};
use crate::theme::{Color, Palette, Rgb};
use crate::tooltip::{drawn, Shaping, TooltipText};
use crate::tray::{shows_tray, TrayItem};
use crate::windows::Tag;
use vstd::prelude::*;
use vstd::utf8::encode_utf8;

verus! {

/// How many workspaces are shown.
pub const WORKSPACE_MAX: usize = 10;

/// What stands on the button of a workspace.
#[derive(Debug, Clone, Copy, PartialEq, Eq, Structural)]
pub enum Label {
    /// The last digit of its number.
    Digit { digit: u8, shaping: Shaping },
    /// A small dot, for one without windows.
    Dot,
}

/// The button of a workspace.
#[derive(Debug, Clone, Copy, PartialEq, Eq, Structural)]
pub struct WorkspaceItem {
    /// The workspace that a press switches to.
    pub id: u8,
    pub label: Label,
    pub focused: bool,
    pub urgent: bool,
}

/// The colours of a button.
#[derive(Debug, Clone, Copy, PartialEq, Eq, Structural)]
pub struct ButtonStyle {
    pub background: Option<Rgb>,
    pub text: Rgb,
    /// The glow around it.
    pub shadow: Option<Color>,
}

/// The button of the workspace at `idx`.
pub open spec fn workspace_button(runner: RunnerView, idx: int) -> WorkspaceItem {
    let focused = idx == runner.workspace_focused;
    WorkspaceItem {
        id: (idx + 1) as u8,
        label: if focused {
            Label::Digit { digit: ((idx + 1) % 10) as u8, shaping: Shaping::Basic }
        } else if runner.workspaces.contains(idx) {
            Label::Digit { digit: ((idx + 1) % 10) as u8, shaping: Shaping::Auto }
        } else {
            Label::Dot
        },
        focused,
        urgent: runner.urgent.contains(idx),
    }
}

/// The colours of a workspace's button, with the pointer on it or not.
pub open spec fn button_style(item: WorkspaceItem, palette: Palette, hovered: bool) -> ButtonStyle {
    ButtonStyle {
        background: match (hovered, item.focused) {
            (true, true) => Some(palette.primary),
            (true, false) => None,
            (false, true) => Some(palette.text),
            (false, false) => if item.urgent {
                Some(palette.danger)
            } else {
                None
            },
        },
        text: if item.focused || item.urgent {
            palette.background.rgb
        } else if hovered {
            palette.primary
        } else {
            palette.text
        },
        shadow: if hovered {
            Some(
                Color {
                    rgb: palette.primary,
                    alpha: if item.focused {
                        55
                    } else {
                        34
                    },
                },
            )
        } else {
            None
        },
    }
}

impl WorkspaceItem {
    /// The colours of the button, with the pointer on it or not.
    pub fn style(&self, palette: &Palette, hovered: bool) -> (res: ButtonStyle)
        ensures
            res == button_style(*self, *palette, hovered),
    {
        ButtonStyle {
            background: match (hovered, self.focused) {
                (true, true) => Some(palette.primary),
                (true, false) => None,
                (false, true) => Some(palette.text),
                (false, false) => if self.urgent {
                    Some(palette.danger)
                } else {
                    None
                },
            },
            text: if self.focused || self.urgent {
                palette.background.rgb
            } else if hovered {
                palette.primary
            } else {
                palette.text
            },
            shadow: if hovered {
                let alpha: u8 = if self.focused {
                    55
                } else {
                    34
                };
                Some(palette.primary.with_alpha(alpha))
            } else {
                None
            },
        }
    }
}

/// An icon with the pointer's doings on it: entering, leaving, and a press.
pub struct Area {
    pub icon: Picture,
    pub on_enter: Message,
    pub on_exit: Message,
    pub on_press: Option<Message>,
}

/// Whether `area` is an icon that opens a tooltip while the pointer is on it.
pub open spec fn hovering(area: Option<Area>, icon: Option<Handle>, on_enter: Message, on_exit: Message) -> bool {
    area == match icon {
        Some(icon) => Some(Area { icon: pictured(icon, 175), on_enter, on_exit, on_press: None }),
        None => None,
    }
}

/// Whether `areas` shows every item with an icon once, and nothing else; the pointer on one asks
/// for its tooltip, and a press activates it.
pub open spec fn shows_areas(areas: Seq<Area>, items: Map<Seq<char>, TrayItem>) -> bool {
    exists|shown: Seq<(String, Handle)>| #[trigger]
        shows_tray(shown, items) && areas.len() == shown.len() && forall|i: int|
            0 <= i < areas.len() ==> tray_area(#[trigger] areas[i], shown[i])
}

/// Whether `area` is that of a tray item.
pub open spec fn tray_area(area: Area, item: (String, Handle)) -> bool {
    &&& area.icon == pictured(item.1, 220)
    &&& area.on_enter matches Message::TrayTooltip(service) && service@ == item.0@
    &&& area.on_exit is CloseTooltip
    &&& area.on_press matches Some(Message::TrayAction(service)) && service@ == item.0@
}

/// The clock, written out.
pub struct ClockItem {
    pub date: String,
    pub time: String,
    pub weekday: &'static str,
}

/// Whether the clock shows what it is set to.
pub open spec fn shows_clock(item: ClockItem, clock: ClockView) -> bool {
    encode_utf8(item.date@) == clock.date && encode_utf8(item.time@) == clock.time && item.weekday@
        == clock.weekday
}

/// The active window's icon, class and title, with what the pointer does there.
pub struct Title<'a> {
    pub icon: Option<Picture>,
    pub class: &'a str,
    pub title: &'a str,
    pub on_enter: Message,
    pub on_exit: Message,
}

/// Whether `title` shows the active window, and describes it further while the pointer is there.
pub open spec fn shows_title(title: Title, runner: RunnerView) -> bool {
    &&& title.icon == match runner.window.icon {
        Some(icon) => Some(pictured(icon, 240)),
        None => None,
    }
    &&& title.class@ == runner.window.class
    &&& title.title@ == runner.window.title
    &&& title.on_enter is WindowInfo
    &&& title.on_exit is CloseTooltip
}

/// The logo at the left end, with what a press on it does.
#[derive(Debug, PartialEq, Eq)]
pub struct Logo {
    pub path: &'static str,
    pub on_press: Message,
}

/// The colour that the logo has.
pub open spec fn logo_rgb(palette: Palette, hovered: bool) -> Rgb {
    if hovered {
        palette.primary
    } else {
        palette.text
    }
}

/// The colour of the logo, with the pointer on it or not.
pub fn logo_color(palette: &Palette, hovered: bool) -> (res: Rgb)
    ensures
        res == logo_rgb(*palette, hovered),
{
    if hovered {
        palette.primary
    } else {
        palette.text
    }
}

/// Everything on the bar.
pub struct Bar<'a> {
    pub logo: Logo,
    pub workspaces: Vec<WorkspaceItem>,
    pub title: Title<'a>,
    pub tray: Vec<Area>,
    pub volume: Option<Area>,
    pub backlight: Option<Area>,
    pub battery: Option<Area>,
    pub clock: ClockItem,
}

/// Whether `bar` shows the state.
pub open spec fn shows(bar: Bar, runner: RunnerView) -> bool {
    &&& bar.logo.path@ == "/usr/share/pixmaps/archlinux-logo.svg"@
    &&& bar.logo.on_press is Hello
    &&& bar.workspaces@ == Seq::new(
        WORKSPACE_MAX as nat,
        |idx: int| workspace_button(runner, idx),
    )
    &&& shows_title(bar.title, runner)
    &&& shows_areas(bar.tray@, runner.tray)
    &&& hovering(bar.volume, runner.volume.icon, Message::Volume, Message::CloseTooltip)
    &&& hovering(
        bar.backlight,
        match runner.backlight {
            Some(backlight) => backlight.icon,
            None => None,
        },
        Message::Backlight,
        Message::CloseTooltip,
    )
    &&& hovering(
        bar.battery,
        match runner.battery {
            Some(battery) => battery.icon,
            None => None,
        },
        Message::Battery,
        Message::BatteryStop,
    )
    &&& shows_clock(bar.clock, runner.clock)
}

/// What a window shows.
pub enum Content<'a> {
    Bar(Bar<'a>),
    Tooltip(TooltipText<'a>),
    /// A tooltip's window without a tooltip.
    Empty,
}

/// Whether `content` is what the window with that tag shows.
pub open spec fn seen(content: Content, runner: RunnerView, tag: Tag) -> bool {
    match tag {
        Tag::Bar => content matches Content::Bar(bar) && shows(bar, runner),
        Tag::Tooltip => match runner.tooltip {
            Some(tooltip) => content matches Content::Tooltip(text) && text@ == drawn(tooltip.content),
            None => content is Empty,
        },
    }
}

/// The area of an icon that opens a tooltip while the pointer is on it.
fn area(icon: Option<Handle>, on_enter: Message, on_exit: Message) -> (res: Option<Area>)
    ensures
        hovering(res, icon, on_enter, on_exit),
{
    match icon {
        Some(icon) => Some(Area { icon: icon.load_size(175), on_enter, on_exit, on_press: None }),
        None => None,
    }
}

impl Runner {
    /// What the window with that tag shows.
    pub fn view(&self, tag: Tag) -> (res: Content<'_>)
        requires
            self.wf(),
        ensures
            seen(res, self.model(), tag),
    {
        match tag {
            Tag::Bar => Content::Bar(self.bar()),
            Tag::Tooltip => match &self.tooltip {
                Some(tooltip) => Content::Tooltip(tooltip.content.draw()),
                None => Content::Empty,
            },
        }
    }

    /// Everything on the bar.
    pub fn bar(&self) -> (res: Bar<'_>)
        requires
            self.wf(),
        ensures
            shows(res, self.model()),
    {
        Bar {
            logo: self.logo(),
            workspaces: self.workspace(),
            title: self.title(),
            tray: self.tray(),
            volume: self.volume(),
            backlight: self.backlight(),
            battery: self.battery(),
            clock: self.clock(),
        }
    }

    /// The logo at the left end.
    pub fn logo(&self) -> (res: Logo)
        ensures
            res.path@ == "/usr/share/pixmaps/archlinux-logo.svg"@,
            res.on_press is Hello,
    {
        Logo { path: "/usr/share/pixmaps/archlinux-logo.svg", on_press: Message::Hello }
    }

    /// The button of the workspace at `idx`.
    pub fn workspace_item(&self, idx: usize) -> (res: WorkspaceItem)
        requires
            idx < BITS,
        ensures
            res == workspace_button(self.model(), idx as int),
    {
        let id: u8 = (idx + 1) as u8;
        let alive = self.workspaces.get(idx);
        let urgent = self.urgent_workspaces.get(idx);
        let focused = idx == self.workspace_focused;
        let label = if focused {
            Label::Digit { digit: id % 10, shaping: Shaping::Basic }
        } else if alive {
            Label::Digit { digit: id % 10, shaping: Shaping::Auto }
        } else {
            Label::Dot
        };
        WorkspaceItem { id, label, focused, urgent }
    }

    /// The buttons of the workspaces.
    pub fn workspace(&self) -> (res: Vec<WorkspaceItem>)
        ensures
            res@ == Seq::new(
                WORKSPACE_MAX as nat,
                |idx: int| workspace_button(self.model(), idx),
            ),
    {
        let mut res: Vec<WorkspaceItem> = Vec::new();
        let mut idx: usize = 0;
        while idx < WORKSPACE_MAX
            invariant
                idx <= WORKSPACE_MAX,
                res.len() == idx,
                forall|i: int| 0 <= i < idx ==> #[trigger] res@[i] == workspace_button(self.model(), i),
            decreases WORKSPACE_MAX - idx,
        {
            res.push(self.workspace_item(idx));
            idx = idx + 1;
        }
        assert(res@ =~= Seq::new(
            WORKSPACE_MAX as nat,
            |idx: int| workspace_button(self.model(), idx),
        ));
        res
    }

    /// The active window's icon, class and title.
    pub fn title(&self) -> (res: Title<'_>)
        ensures
            shows_title(res, self.model()),
    {
        Title {
            icon: match &self.window.icon {
                Some(icon) => Some(icon.load()),
                None => None,
            },
            class: self.window.class.as_str(),
            title: self.window.title.as_str(),
            on_enter: Message::WindowInfo,
            on_exit: Message::CloseTooltip,
        }
    }

    /// The items of the tray, in no certain order.
    pub fn tray(&self) -> (res: Vec<Area>)
        ensures
            shows_areas(res@, self.model().tray),
    {
        let shown = self.tray_items.shown();
        let mut res: Vec<Area> = Vec::new();
        let mut i: usize = 0;
        while i < shown.len()
            invariant
                i <= shown.len(),
                res.len() == i,
                forall|j: int| 0 <= j < i ==> tray_area(#[trigger] res@[j], shown@[j]),
            decreases shown.len() - i,
        {
            let (service, icon) = &shown[i];
            res.push(
                Area {
                    icon: icon.load_size(220),
                    on_enter: Message::TrayTooltip(service.clone()),
                    on_exit: Message::CloseTooltip,
                    on_press: Some(Message::TrayAction(service.clone())),
                },
            );
            i = i + 1;
        }
        assert(shows_tray(shown@, self.model().tray));
        res
    }

    /// The icon of the volume.
    pub fn volume(&self) -> (res: Option<Area>)
        ensures
            hovering(res, self.model().volume.icon, Message::Volume, Message::CloseTooltip),
    {
        area(self.volume.icon, Message::Volume, Message::CloseTooltip)
    }

    /// The icon of the backlight.
    pub fn backlight(&self) -> (res: Option<Area>)
        ensures
            hovering(
                res,
                match self.model().backlight {
                    Some(backlight) => backlight.icon,
                    None => None,
                },
                Message::Backlight,
                Message::CloseTooltip,
            ),
    {
        match &self.backlight {
            Some(backlight) => area(backlight.icon, Message::Backlight, Message::CloseTooltip),
            None => None,
        }
    }

    /// The icon of the battery.
    pub fn battery(&self) -> (res: Option<Area>)
        ensures
            hovering(
                res,
                match self.model().battery {
                    Some(battery) => battery.icon,
                    None => None,
                },
                Message::Battery,
                Message::BatteryStop,
            ),
    {
        match &self.battery_status {
            Some(battery) => area(battery.icon, Message::Battery, Message::BatteryStop),
            None => None,
        }
    }

    /// The clock, written out.
    pub fn clock(&self) -> (res: ClockItem)
        requires
            self.wf(),
        ensures
            shows_clock(res, self.model().clock),
    {
        ClockItem {
            date: self.clock.date_text(),
            time: self.clock.time_text(),
            weekday: self.clock.weekday,
        }
    }
}

} // verus!
