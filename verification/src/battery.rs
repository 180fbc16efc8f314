//! The battery's item on the bar.

use crate::attr::Attr;
use crate::charging::ChargingStatus;
use crate::icons::{answer, filled, request_view, wanted, Handle, IconCache, IconRequest, CAPACITY};
use crate::text::{decimal_text, push_decimal};
use vstd::prelude::*;
use vstd::string::StringExecFns;

verus! {

/// News of the battery or of the power line.
#[derive(Debug, Clone, Copy, PartialEq, Eq)]
pub enum BatteryEvent {
    PowerOnline,
    PowerOffline,
    Capacity(u8),
    Status(ChargingStatus),
}

/// What is known of the battery, and the icon that shows it.
pub struct BatteryStatus {
    pub charging: Attr<Option<bool>>,
    pub status: Attr<ChargingStatus>,
    pub capacity: Attr<u8>,
    pub icon: Option<Handle>,
}

/// The model of a [`BatteryStatus`].
pub struct BatteryView {
    pub charging: Option<bool>,
    pub status: ChargingStatus,
    pub capacity: u8,
    pub icon: Option<Handle>,
}

impl View for BatteryStatus {
    type V = BatteryView;

    open spec fn view(&self) -> BatteryView {
        BatteryView {
            charging: self.charging.0,
            status: self.status.0,
            capacity: self.capacity.0,
            icon: self.icon,
        }
    }
}

/// A battery that was just read.
pub open spec fn read_battery(status: ChargingStatus, capacity: u8, icon: Option<Handle>) -> BatteryView {
    BatteryView { charging: None, status, capacity, icon }
}

/// Whether the battery counts as charged.
pub open spec fn is_charged(battery: BatteryView) -> bool {
    battery.status is Full || battery.capacity >= 99
}

/// Whether the battery is being charged.
pub open spec fn is_charging(battery: BatteryView) -> bool {
    battery.charging == Some(true) || battery.status is Charging
}

/// The name of the icon for the battery.
pub open spec fn battery_icon(battery: BatteryView) -> Seq<char> {
    if is_charged(battery) {
        "battery-level-100-charged-symbolic"@
    } else {
        "battery-level-"@ + decimal_text((battery.capacity / 10 * 10) as nat) + (if is_charging(battery) {
            "-charging"@
        } else {
            ""@
        }) + "-symbolic"@
    }
}

/// The battery after news of it, its icon aside.
pub open spec fn with_event(battery: BatteryView, event: BatteryEvent) -> BatteryView {
    match event {
        BatteryEvent::PowerOnline => BatteryView { charging: Some(true), ..battery },
        BatteryEvent::PowerOffline => BatteryView { charging: Some(false), ..battery },
        BatteryEvent::Capacity(capacity) => BatteryView { capacity, ..battery },
        BatteryEvent::Status(status) => BatteryView { status, ..battery },
    }
}

impl BatteryStatus {
    /// A battery that was just read, with the icon that `loaded` or the cache gives.
    pub fn new(
        status: ChargingStatus,
        capacity: u8,
        icon_cache: &mut IconCache,
        loaded: Option<Handle>,
    ) -> (res: Self)
        requires
            old(icon_cache).wf(),
        ensures
            final(icon_cache).wf(),
            ({
                let key = battery_icon(read_battery(status, capacity, None));
                &&& res@ == read_battery(status, capacity, answer(old(icon_cache)@, key, loaded))
                &&& final(icon_cache)@ == filled(old(icon_cache)@, CAPACITY as nat, key, loaded)
            }),
    {
        let mut res = BatteryStatus {
            charging: Attr(None),
            status: Attr(status),
            capacity: Attr(capacity),
            icon: None,
        };
        res.load_icon(icon_cache, loaded);
        res
    }

    /// The icon to look for before [`BatteryStatus::load_icon`].
    pub fn wanted_icon(&self, icon_cache: &IconCache) -> (res: Option<IconRequest>)
        ensures
            request_view(res) == wanted(icon_cache@, battery_icon(self@), 64, true),
    {
        icon_cache.with_size(self.icon().as_str(), 64, true)
    }

    /// Takes the icon that is kept for the battery's state, or else `loaded`.
    pub fn load_icon(&mut self, icon_cache: &mut IconCache, loaded: Option<Handle>)
        requires
            old(icon_cache).wf(),
        ensures
            final(icon_cache).wf(),
            ({
                let key = battery_icon(old(self)@);
                &&& final(self)@ == BatteryView { icon: answer(old(icon_cache)@, key, loaded), ..old(self)@ }
                &&& final(icon_cache)@ == filled(old(icon_cache)@, CAPACITY as nat, key, loaded)
            }),
    {
        let key = self.icon();
        self.icon = icon_cache.load(key.as_str(), loaded);
    }

    /// Whether the battery counts as charged.
    pub fn charged(&self) -> (res: bool)
        ensures
            res == is_charged(self@),
    {
        self.status.0 == ChargingStatus::Full || self.capacity.0 >= 99
    }

    /// Whether the battery is being charged.
    pub fn charging(&self) -> (res: bool)
        ensures
            res == is_charging(self@),
    {
        self.charging.0 == Some(true) || self.status.0 == ChargingStatus::Charging
    }

    /// The name of the icon for the battery.
    pub fn icon(&self) -> (res: String)
        ensures
            res@ == battery_icon(self@),
    {
        if self.charged() {
            "battery-level-100-charged-symbolic".to_owned()
        } else {
            let level: u8 = self.capacity.0 / 10 * 10;
            let state = if self.charging() {
                "-charging"
            } else {
                ""
            };
            let mut res = "battery-level-".to_owned();
            push_decimal(&mut res, level as u64);
            res.append(state);
            res.append("-symbolic");
            res
        }
    }

    /// Takes over news of the battery, and tells whether anything has changed.
    pub fn apply(&mut self, event: BatteryEvent) -> (changed: bool)
        ensures
            final(self)@ == with_event(old(self)@, event),
            changed == (final(self)@ != old(self)@),
    {
        match event {
            BatteryEvent::PowerOnline => self.charging.update(Some(true)),
            BatteryEvent::PowerOffline => self.charging.update(Some(false)),
            BatteryEvent::Capacity(x) => self.capacity.update(x),
            BatteryEvent::Status(x) => self.status.update(x),
        }
    }

    /// The same state.
    pub fn copy(&self) -> (res: Self)
        ensures
            res@ == self@,
    {
        BatteryStatus {
            charging: Attr(self.charging.0),
            status: Attr(self.status.0),
            capacity: Attr(self.capacity.0),
            icon: self.icon,
        }
    }
}

} // verus!
