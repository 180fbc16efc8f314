//! What happens around the bar.

use crate::battery::BatteryEvent;
use crate::clients::{find_workspace, search_clients, Search};
use crate::clock::ClockFace;
use crate::hyprland::{search_for, HyprlandReqToken, ReqTokenView};
use crate::tray::TrayEvent;
use crate::{hyprland, pipewire, uevent};
use vstd::prelude::*;

verus! {

/// What was polled.
pub enum Polled {
    Clock(ClockFace),
    /// The battery, described.
    Battery(String),
}

/// What the bar reacts to, apart from its own windows.
pub enum AppEvent {
    Hyprland(hyprland::Event),
    /// The active window, described.
    WindowInfo(String),
    /// A workspace with a window that wants attention.
    Urgent(usize),
    Battery(BatteryEvent),
    Tray(TrayEvent),
    Polling(Polled),
    Pipewire(pipewire::Event),
    Backlight,
}

/// The event that news from the kernel means.
pub open spec fn kernel_event(event: uevent::Event) -> AppEvent {
    match event {
        uevent::Event::PowerOnline => AppEvent::Battery(BatteryEvent::PowerOnline),
        uevent::Event::PowerOffline => AppEvent::Battery(BatteryEvent::PowerOffline),
        uevent::Event::BatCapacity(x) => AppEvent::Battery(BatteryEvent::Capacity(x)),
        uevent::Event::BatStatus(x) => AppEvent::Battery(BatteryEvent::Status(x)),
        uevent::Event::Backlight => AppEvent::Backlight,
    }
}

/// Takes news from the kernel as an event.
pub fn from_kernel(event: uevent::Event) -> (res: AppEvent)
    ensures
        res == kernel_event(event),
{
    match event {
        uevent::Event::PowerOnline => AppEvent::Battery(BatteryEvent::PowerOnline),
        uevent::Event::PowerOffline => AppEvent::Battery(BatteryEvent::PowerOffline),
        uevent::Event::BatCapacity(x) => AppEvent::Battery(BatteryEvent::Capacity(x)),
        uevent::Event::BatStatus(x) => AppEvent::Battery(BatteryEvent::Status(x)),
        uevent::Event::Backlight => AppEvent::Backlight,
    }
}

/// Whether `event` is what the compositor's answer means.
pub open spec fn means(token: ReqTokenView, answer: Seq<char>, event: Option<AppEvent>) -> bool {
    match token {
        ReqTokenView::ActiveWindow => event matches Some(AppEvent::WindowInfo(text)) && text@ == answer,
        ReqTokenView::Urgent { .. } => event == match search_for(token, answer) {
            Search::Workspace(id) => Some(AppEvent::Urgent(id)),
            _ => None,
        },
    }
}

/// Whether an answer of the compositor has no malformed lines where they matter.
pub fn readable(token: &HyprlandReqToken, answer: &str) -> (res: bool)
    ensures
        res == (search_for(token@, answer@) != Search::Malformed),
{
    match token {
        HyprlandReqToken::ActiveWindow => true,
        HyprlandReqToken::Urgent { win } => match search_clients(
            win.as_str().as_bytes(),
            answer.as_bytes(),
        ) {
            Search::Malformed => false,
            _ => true,
        },
    }
}

/// Takes an answer of the compositor without malformed lines as an event.
pub fn from_answer(token: HyprlandReqToken, answer: String) -> (res: Option<AppEvent>)
    requires
        search_for(token@, answer@) != Search::Malformed,
    ensures
        means(token@, answer@, res),
{
    match token {
        HyprlandReqToken::ActiveWindow => Some(AppEvent::WindowInfo(answer)),
        HyprlandReqToken::Urgent { win } => {
            match find_workspace(win.as_str().as_bytes(), answer.as_str().as_bytes()) {
                Some(id) => Some(AppEvent::Urgent(id)),
                None => None,
            }
        },
    }
}

} // verus!
