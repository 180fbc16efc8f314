//! Whether a battery is being charged.

use crate::bytes::same;
use vstd::prelude::*;
use vstd::utf8::encode_utf8;

verus! {

/// What the kernel says of a battery.
#[derive(Debug, Clone, Copy, Eq)]
pub enum ChargingStatus {
    Charging,
    Discharging,
    NotCharging,
    Full,
    Unknown,
}

impl PartialEq for ChargingStatus {
    fn eq(&self, other: &Self) -> (res: bool) {
        match (self, other) {
            (ChargingStatus::Charging, ChargingStatus::Charging) => true,
            (ChargingStatus::Discharging, ChargingStatus::Discharging) => true,
            (ChargingStatus::NotCharging, ChargingStatus::NotCharging) => true,
            (ChargingStatus::Full, ChargingStatus::Full) => true,
            (ChargingStatus::Unknown, ChargingStatus::Unknown) => true,
            _ => false,
        }
    }
}

impl vstd::std_specs::cmp::PartialEqSpecImpl for ChargingStatus {
    open spec fn obeys_eq_spec() -> bool {
        true
    }

    open spec fn eq_spec(&self, other: &Self) -> bool {
        *self == *other
    }
}

/// The status that the kernel writes as `s`.
pub open spec fn status_of(s: Seq<u8>) -> ChargingStatus {
    if s == encode_utf8("Charging"@) {
        ChargingStatus::Charging
    } else if s == encode_utf8("Discharging"@) {
        ChargingStatus::Discharging
    } else if s == encode_utf8("Not charging"@) {
        ChargingStatus::NotCharging
    } else if s == encode_utf8("Full"@) {
        ChargingStatus::Full
    } else {
        ChargingStatus::Unknown
    }
}

impl ChargingStatus {
    /// Reads the status as the kernel writes it.
    pub fn from_bytes(s: &[u8]) -> (res: Self)
        ensures
            res == status_of(s@),
    {
        if same(s, "Charging".as_bytes()) {
            ChargingStatus::Charging
        } else if same(s, "Discharging".as_bytes()) {
            ChargingStatus::Discharging
        } else if same(s, "Not charging".as_bytes()) {
            ChargingStatus::NotCharging
        } else if same(s, "Full".as_bytes()) {
            ChargingStatus::Full
        } else {
            ChargingStatus::Unknown
        }
    }
}

} // verus!
