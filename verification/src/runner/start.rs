//! The state at first.

use super::{Runner, RunnerView, WindowInfo, WindowInfoView};
use crate::attr::Attr;
use crate::backlight::{backlight_icon, wanted_icon, BacklightStatus};
use crate::battery::{battery_icon, read_battery, BatteryStatus};
use crate::bitset::BitSet;
use crate::charging::ChargingStatus;
use crate::clock::{legible, ClockFace, ClockView};
use crate::fx;
use crate::icons::{
    answer, filled, request, Entries, Handle, IconCache, IconRequest, IconRequestView, CAPACITY,
};
use crate::theme::{dark, theme};
use crate::tray::TrayItems;
use crate::volume::{no_volume, Volume};
use crate::windows::{Role, Tag, Window, WindowManager};
use vstd::prelude::*;

verus! {

/// A battery that was just read.
#[derive(Debug, Clone, Copy, PartialEq, Eq)]
pub struct BatteryReading {
    pub status: ChargingStatus,
    pub capacity: u8,
}

/// The icon that a battery that was just read wants.
pub open spec fn wanted_by_battery(reading: BatteryReading) -> IconRequestView {
    request(battery_icon(read_battery(reading.status, reading.capacity, None)), 64, true)
}

/// The icon that a backlight that was just read wants.
pub open spec fn wanted_at_first(percentage: u32) -> IconRequestView {
    request(backlight_icon(percentage), 64, true)
}

/// The icon to look for before a battery that was just read is shown.
pub fn battery_request(reading: BatteryReading) -> (res: IconRequest)
    ensures
        res@ == wanted_by_battery(reading),
{
    let battery = BatteryStatus {
        charging: Attr(None),
        status: Attr(reading.status),
        capacity: Attr(reading.capacity),
        icon: None,
    };
    battery.wanted_icon(&IconCache::new()).unwrap()
}

/// The icon to look for before a backlight that was just read is shown.
pub fn backlight_request(percentage: u32) -> (res: IconRequest)
    ensures
        res@ == wanted_at_first(percentage),
{
    wanted_icon(percentage, &IconCache::new()).unwrap()
}

/// What is kept once the icon of the battery was looked up, where there is one.
pub open spec fn icons_of_battery(battery: Option<BatteryReading>, loaded: Option<Handle>) -> Entries {
    match battery {
        Some(reading) => filled(
            Entries::empty(),
            CAPACITY as nat,
            battery_icon(read_battery(reading.status, reading.capacity, None)),
            loaded,
        ),
        None => Entries::empty(),
    }
}

/// The state at first: one window, nothing known of the compositor, of the tray and of the sound
/// server, and of the battery and the backlight what was read.
pub open spec fn initial(
    bar: Window,
    dbus: bool,
    clock: ClockView,
    battery: Option<BatteryReading>,
    battery_icon_loaded: Option<Handle>,
    backlight: Option<u32>,
    backlight_icon_loaded: Option<Handle>,
) -> RunnerView {
    let icons = icons_of_battery(battery, battery_icon_loaded);
    RunnerView {
        dbus,
        windows: seq![bar],
        focused: None,
        callbacks: Map::empty(),
        tooltip: None,
        theme: dark(),
        workspaces: Set::empty(),
        urgent: Set::empty(),
        workspace_focused: usize::MAX,
        window: WindowInfoView { class: Seq::empty(), title: Seq::empty(), icon: None },
        tray: Map::empty(),
        battery: match battery {
            Some(reading) => Some(
                read_battery(reading.status, reading.capacity, battery_icon_loaded),
            ),
            None => None,
        },
        backlight: match backlight {
            Some(percentage) => Some(
                BacklightStatus {
                    percentage,
                    icon: answer(icons, backlight_icon(percentage), backlight_icon_loaded),
                },
            ),
            None => None,
        },
        volume: no_volume(),
        clock,
        icons: match backlight {
            Some(percentage) => filled(
                icons,
                CAPACITY as nat,
                backlight_icon(percentage),
                backlight_icon_loaded,
            ),
            None => icons,
        },
    }
}

impl Runner {
    /// The state at first; the icons are those that [`battery_request`] and
    /// [`backlight_request`] asked for.
    pub fn new(
        surface: u64,
        layer_surface: u64,
        dbus: bool,
        clock: ClockFace,
        battery: Option<BatteryReading>,
        battery_loaded: Option<Handle>,
        backlight: Option<u32>,
        backlight_loaded: Option<Handle>,
    ) -> (res: Self)
        requires
            legible(clock@),
        ensures
            res.wf(),
            res.model() == initial(
                Window { surface, role: Role::Layer { layer_surface }, tag: Tag::Bar },
                dbus,
                clock@,
                battery,
                battery_loaded,
                backlight,
                backlight_loaded,
            ),
    {
        let mut window_manager = WindowManager::new();
        window_manager.create_window(
            Window { surface, role: Role::Layer { layer_surface }, tag: Tag::Bar },
        );
        let mut icon_cache = IconCache::new();
        let battery_status = match battery {
            Some(reading) => Some(
                BatteryStatus::new(
                    reading.status,
                    reading.capacity,
                    &mut icon_cache,
                    battery_loaded,
                ),
            ),
            None => None,
        };
        let backlight = match backlight {
            Some(percentage) => Some(
                BacklightStatus::new(percentage, &mut icon_cache, backlight_loaded),
            ),
            None => None,
        };
        let res = Runner {
            dbus,
            window_manager,
            callbacks: fx::map(),
            tooltip: None,
            theme: theme(),
            workspaces: BitSet::new(),
            urgent_workspaces: BitSet::new(),
            workspace_focused: usize::MAX,
            window: WindowInfo { class: String::new(), title: String::new(), icon: None },
            tray_items: TrayItems::new(),
            battery_status,
            backlight,
            volume: Volume::new(),
            clock,
            icon_cache,
        };
        assert(res.model().callbacks =~= Map::<u32, u64>::empty());
        assert(res.model().window.class =~= Seq::<char>::empty());
        assert(res.model().window.title =~= Seq::<char>::empty());
        assert(res.model().volume.display =~= Seq::<char>::empty());
        res
    }
}

} // verus!
