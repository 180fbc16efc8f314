//! What holds of the kernel's messages.

use crate::battery::{with_event, BatteryView};
use crate::bytes::{decimal, split_once_spec};
use crate::charging::{status_of, ChargingStatus};
use crate::events::{kernel_event, AppEvent};
use crate::uevent::{
    capacities_are_numbers, events_of, last_subsystem, last_value, names_battery, pairs_of, Event, Pair, Subsystem,
};
use vstd::prelude::*;
use vstd::utf8::encode_utf8;

verus! {

/// A status is read exactly where the kernel's word for it stands, letter for letter; all else
/// is unknown.
pub proof fn law_statuses(s: Seq<u8>)
    ensures
        status_of(s) is Charging <==> s == encode_utf8("Charging"@),
        status_of(s) is Discharging <==> s == encode_utf8("Discharging"@),
        status_of(s) is NotCharging <==> s == encode_utf8("Not charging"@),
        status_of(s) is Full <==> s == encode_utf8("Full"@),
{
    reveal_strlit("Charging");
    reveal_strlit("Discharging");
    reveal_strlit("Not charging");
    reveal_strlit("Full");
    vstd::utf8::is_ascii_chars_encode_utf8("Charging"@);
    vstd::utf8::is_ascii_chars_encode_utf8("Discharging"@);
    vstd::utf8::is_ascii_chars_encode_utf8("Not charging"@);
    vstd::utf8::is_ascii_chars_encode_utf8("Full"@);
}

/// A line without an equals sign ends the body, whatever stands behind; before it, every line is
/// a pair, in order.
pub proof fn law_body_ends_at_a_broken_line(good: Seq<Seq<u8>>, bad: Seq<u8>, rest: Seq<Seq<u8>>)
    requires
        forall|i: int| 0 <= i < good.len() ==> (#[trigger] good[i]).contains(0x3d),
        !bad.contains(0x3d),
    ensures
        pairs_of(good).len() == good.len(),
        pairs_of(good + seq![bad] + rest) == pairs_of(good),
        forall|i: int|
            0 <= i < good.len() ==> good[i] == (#[trigger] pairs_of(good)[i]).0 + seq![0x3du8]
                + pairs_of(good)[i].1 && !pairs_of(good)[i].0.contains(0x3d),
    decreases good.len(),
{
    let lines = good + seq![bad] + rest;
    if good.len() == 0 {
        assert(lines[0] == bad);
        crate::laws::bytes::law_parts_are_the_whole(bad, 0x3d);
        if split_once_spec(bad, 0x3d) is Some {
            let (a, b) = split_once_spec(bad, 0x3d).unwrap();
            assert((a + seq![0x3du8] + b)[a.len() as int] == 0x3d);
            assert(bad.contains(bad[a.len() as int]));
        }
        assert(pairs_of(lines) =~= pairs_of(good));
    } else {
        let shorter = good.drop_first();
        assert(lines.drop_first() =~= shorter + seq![bad] + rest);
        assert forall|i: int| 0 <= i < shorter.len() implies (#[trigger] shorter[i]).contains(0x3d) by {
            assert(shorter[i] == good[i + 1]);
        }
        law_body_ends_at_a_broken_line(shorter, bad, rest);
        crate::laws::bytes::law_parts_are_the_whole(good[0], 0x3d);
        assert(good[0].contains(0x3d));
        assert(lines[0] == good[0]);
        let all = pairs_of(good);
        assert(all =~= seq![split_once_spec(good[0], 0x3d).unwrap()] + pairs_of(shorter));
        assert forall|i: int| 0 <= i < good.len() implies good[i] == (#[trigger] all[i]).0 + seq![0x3du8]
            + all[i].1 && !all[i].0.contains(0x3d) by {
            if i > 0 {
                assert(all[i] == pairs_of(shorter)[i - 1]);
                assert(shorter[i - 1] == good[i]);
            }
        }
    }
}

/// Whether the pair at `at` is the last under `key`, or whether there is none where `at` is none.
pub open spec fn last_under(pairs: Seq<Pair>, key: Seq<char>, at: Option<int>) -> bool {
    match at {
        Some(i) => {
            &&& 0 <= i < pairs.len()
            &&& pairs[i].0 == encode_utf8(key)
            &&& forall|j: int| i < j < pairs.len() ==> (#[trigger] pairs[j]).0 != encode_utf8(key)
        },
        None => forall|j: int| 0 <= j < pairs.len() ==> (#[trigger] pairs[j]).0 != encode_utf8(key),
    }
}

proof fn lemma_last_value(pairs: Seq<Pair>, key: Seq<char>, at: Option<int>)
    requires
        last_under(pairs, key, at),
    ensures
        last_value(pairs, key) == match at {
            Some(i) => Some(pairs[i].1),
            None => None,
        },
    decreases pairs.len(),
{
    if pairs.len() > 0 {
        let head = pairs.drop_last();
        assert(pairs.last() == pairs[pairs.len() - 1]);
        if at != Some(pairs.len() - 1) {
            assert forall|j: int| 0 <= j < head.len() implies head[j] == #[trigger] pairs[j] by {}
            assert(last_under(head, key, at));
            lemma_last_value(head, key, at);
        }
    }
}

/// Whether a pair names a part of the kernel that the bar listens to.
pub open spec fn names_part(pair: Pair) -> bool {
    pair.0 == encode_utf8("SUBSYSTEM"@) && (pair.1 == encode_utf8("backlight"@) || pair.1 == encode_utf8(
        "power_supply"@,
    ))
}

/// Whether the pair at `at` is the last that names a part that the bar listens to.
pub open spec fn about(pairs: Seq<Pair>, at: Option<int>) -> bool {
    match at {
        Some(i) => {
            &&& 0 <= i < pairs.len()
            &&& names_part(pairs[i])
            &&& forall|j: int| i < j < pairs.len() ==> !names_part(#[trigger] pairs[j])
        },
        None => forall|j: int| 0 <= j < pairs.len() ==> !names_part(#[trigger] pairs[j]),
    }
}

proof fn lemma_parts_differ()
    ensures
        encode_utf8("backlight"@) != encode_utf8("power_supply"@),
{
    reveal_strlit("backlight");
    reveal_strlit("power_supply");
    vstd::utf8::is_ascii_chars_encode_utf8("backlight"@);
    vstd::utf8::is_ascii_chars_encode_utf8("power_supply"@);
}

proof fn lemma_last_subsystem(pairs: Seq<Pair>, at: Option<int>)
    requires
        about(pairs, at),
    ensures
        last_subsystem(pairs) == match at {
            Some(i) => if pairs[i].1 == encode_utf8("backlight"@) {
                Some(Subsystem::Backlight)
            } else {
                Some(Subsystem::PowerSupply)
            },
            None => None,
        },
    decreases pairs.len(),
{
    lemma_parts_differ();
    if pairs.len() > 0 {
        let head = pairs.drop_last();
        assert(pairs.last() == pairs[pairs.len() - 1]);
        if at != Some(pairs.len() - 1) {
            assert forall|j: int| 0 <= j < head.len() implies head[j] == #[trigger] pairs[j] by {}
            assert(about(head, at));
            lemma_last_subsystem(head, at);
        }
    }
}

/// Whether a pair says that the power supply is a battery.
pub open spec fn of_battery(pair: Pair) -> bool {
    pair.0 == encode_utf8("POWER_SUPPLY_TYPE"@) && pair.1 == encode_utf8("Battery"@)
}

proof fn lemma_names_battery(pairs: Seq<Pair>)
    ensures
        names_battery(pairs) <==> exists|i: int| 0 <= i < pairs.len() && of_battery(#[trigger] pairs[i]),
{
    let pair: Pair = (encode_utf8("POWER_SUPPLY_TYPE"@), encode_utf8("Battery"@));
    if names_battery(pairs) {
        let i = choose|i: int| 0 <= i < pairs.len() && #[trigger] pairs[i] == pair;
        assert(of_battery(pairs[i]));
    }
    if exists|i: int| 0 <= i < pairs.len() && of_battery(#[trigger] pairs[i]) {
        let i = choose|i: int| 0 <= i < pairs.len() && of_battery(#[trigger] pairs[i]);
        assert(pairs[i] == pair);
    }
}

/// A message about a battery tells its capacity exactly where it has one, and its status exactly
/// where it has one, the capacity first, each as the last pair says. No other key bears on it.
pub proof fn law_battery_tells_what_it_has(
    pairs: Seq<Pair>,
    part: int,
    battery: int,
    capacity: Option<int>,
    status: Option<int>,
)
    requires
        about(pairs, Some(part)),
        pairs[part].1 == encode_utf8("power_supply"@),
        0 <= battery < pairs.len(),
        of_battery(pairs[battery]),
        last_under(pairs, "POWER_SUPPLY_CAPACITY"@, capacity),
        last_under(pairs, "POWER_SUPPLY_STATUS"@, status),
        capacity matches Some(i) ==> decimal(pairs[i].1) is Some && decimal(pairs[i].1).unwrap() <= 255,
    ensures
        events_of(pairs) == (match capacity {
            Some(i) => seq![Event::BatCapacity(decimal(pairs[i].1).unwrap() as u8)],
            None => seq![],
        }) + (match status {
            Some(i) => seq![Event::BatStatus(status_of(pairs[i].1))],
            None => seq![],
        }),
{
    lemma_parts_differ();
    lemma_last_subsystem(pairs, Some(part));
    lemma_names_battery(pairs);
    lemma_last_value(pairs, "POWER_SUPPLY_CAPACITY"@, capacity);
    lemma_last_value(pairs, "POWER_SUPPLY_STATUS"@, status);
}

/// A message about another power supply tells whether it is connected exactly where it says so:
/// it is unless the last value is a zero.
pub proof fn law_power_line_tells_whether_it_is_on(pairs: Seq<Pair>, part: int, online: Option<int>)
    requires
        about(pairs, Some(part)),
        pairs[part].1 == encode_utf8("power_supply"@),
        forall|i: int| 0 <= i < pairs.len() ==> !of_battery(#[trigger] pairs[i]),
        last_under(pairs, "POWER_SUPPLY_ONLINE"@, online),
    ensures
        events_of(pairs) == match online {
            Some(i) => if pairs[i].1 == seq![0x30u8] {
                seq![Event::PowerOffline]
            } else {
                seq![Event::PowerOnline]
            },
            None => seq![],
        },
{
    lemma_parts_differ();
    lemma_last_subsystem(pairs, Some(part));
    lemma_names_battery(pairs);
    lemma_last_value(pairs, "POWER_SUPPLY_ONLINE"@, online);
    reveal_strlit("0");
    vstd::utf8::is_ascii_chars_encode_utf8("0"@);
    assert(encode_utf8("0"@) =~= seq![0x30u8]);
}

/// A message about the backlight tells just that, and a message about anything else nothing,
/// whatever they hold besides.
pub proof fn law_other_messages(pairs: Seq<Pair>, part: Option<int>)
    requires
        about(pairs, part),
        part matches Some(i) ==> pairs[i].1 == encode_utf8("backlight"@),
    ensures
        events_of(pairs) == (if part is Some {
            seq![Event::Backlight]
        } else {
            seq![]
        }),
{
    lemma_last_subsystem(pairs, part);
}

/// What the kernel tells of the power line and the battery reaches the battery's state as it
/// was told, and the backlight's news are the backlight's.
pub proof fn law_kernel_news_reach_the_battery(
    battery: BatteryView,
    capacity: u8,
    status: ChargingStatus,
)
    ensures
        kernel_event(Event::PowerOnline) matches AppEvent::Battery(e) && with_event(battery, e).charging
            == Some(true),
        kernel_event(Event::PowerOffline) matches AppEvent::Battery(e) && with_event(battery, e).charging
            == Some(false),
        kernel_event(Event::BatCapacity(capacity)) matches AppEvent::Battery(e) && with_event(
            battery,
            e,
        ).capacity == capacity,
        kernel_event(Event::BatStatus(status)) matches AppEvent::Battery(e) && with_event(
            battery,
            e,
        ).status == status,
        kernel_event(Event::Backlight) is Backlight,
{
}

/// A message can be read exactly where every capacity in it is a number of a byte at most.
pub proof fn law_readable_messages(pairs: Seq<Pair>, i: int)
    requires
        0 <= i < pairs.len(),
    ensures
        capacities_are_numbers(pairs) && pairs[i].0 == encode_utf8("POWER_SUPPLY_CAPACITY"@) ==> (decimal(
            pairs[i].1,
        ) matches Some(n) && n <= 255),
        (forall|j: int|
            0 <= j < pairs.len() && (#[trigger] pairs[j]).0 == encode_utf8("POWER_SUPPLY_CAPACITY"@) ==> (
            decimal(pairs[j].1) matches Some(n) && n <= 255)) ==> capacities_are_numbers(pairs),
{
}

} // verus!
