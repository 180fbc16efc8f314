//! What holds of the battery and of the backlight.

use crate::backlight::{backlight_icon, backlight_tooltip, names_device};
use crate::battery::{battery_icon, is_charged, is_charging, read_battery, with_event, BatteryEvent, BatteryView};
use crate::charging::ChargingStatus;
use crate::icons::Handle;
use crate::text::decimal_text;
use vstd::prelude::*;

verus! {

/// The battery after a run of news.
pub open spec fn told(battery: BatteryView, news: Seq<BatteryEvent>) -> BatteryView
    decreases news.len(),
{
    if news.len() == 0 {
        battery
    } else {
        with_event(told(battery, news.drop_last()), news.last())
    }
}

/// Whether the piece of news at `at` is the last that `of` picks, or whether there is none where
/// `at` is none.
pub open spec fn last_news(news: Seq<BatteryEvent>, of: spec_fn(BatteryEvent) -> bool, at: Option<int>) -> bool {
    match at {
        Some(i) => 0 <= i < news.len() && of(news[i]) && forall|j: int|
            i < j < news.len() ==> !of(#[trigger] news[j]),
        None => forall|j: int| 0 <= j < news.len() ==> !of(#[trigger] news[j]),
    }
}

/// After any run of news the battery's capacity is the one told last, whatever else was told;
/// so are its status and whether the power line charges it. What was never told stays.
pub proof fn law_last_news_count(
    battery: BatteryView,
    news: Seq<BatteryEvent>,
    capacity: Option<int>,
    status: Option<int>,
    power: Option<int>,
)
    requires
        last_news(news, |e: BatteryEvent| e is Capacity, capacity),
        last_news(news, |e: BatteryEvent| e is Status, status),
        last_news(news, |e: BatteryEvent| e is PowerOnline || e is PowerOffline, power),
    ensures
        told(battery, news).capacity == match capacity {
            Some(i) => news[i]->Capacity_0,
            None => battery.capacity,
        },
        told(battery, news).status == match status {
            Some(i) => news[i]->Status_0,
            None => battery.status,
        },
        told(battery, news).charging == match power {
            Some(i) => Some(news[i] is PowerOnline),
            None => battery.charging,
        },
        told(battery, news).icon == battery.icon,
    decreases news.len(),
{
    if news.len() > 0 {
        let head = news.drop_last();
        let last = news.len() - 1;
        assert(news.last() == news[last]);
        assert forall|j: int| 0 <= j < head.len() implies head[j] == #[trigger] news[j] by {}
        let of_capacity = |e: BatteryEvent| e is Capacity;
        let of_status = |e: BatteryEvent| e is Status;
        let of_power = |e: BatteryEvent| e is PowerOnline || e is PowerOffline;
        let c = if capacity == Some(last) {
            lemma_some_last(head, of_capacity)
        } else {
            capacity
        };
        let s = if status == Some(last) {
            lemma_some_last(head, of_status)
        } else {
            status
        };
        let p = if power == Some(last) {
            lemma_some_last(head, of_power)
        } else {
            power
        };
        law_last_news_count(battery, head, c, s, p);
    }
}

/// There is a last piece of news of any kind, or none.
proof fn lemma_some_last(news: Seq<BatteryEvent>, of: spec_fn(BatteryEvent) -> bool) -> (at: Option<int>)
    ensures
        last_news(news, of, at),
    decreases news.len(),
{
    if news.len() == 0 {
        None
    } else if of(news.last()) {
        Some(news.len() - 1)
    } else {
        let head = news.drop_last();
        let at = lemma_some_last(head, of);
        assert forall|j: int| 0 <= j < head.len() implies head[j] == #[trigger] news[j] by {}
        at
    }
}

/// A battery that was just read has what was read, and nothing is known of the power line.
pub proof fn law_read_battery(status: ChargingStatus, capacity: u8, icon: Option<Handle>)
    ensures
        read_battery(status, capacity, icon).status == status,
        read_battery(status, capacity, icon).capacity == capacity,
        read_battery(status, capacity, icon).icon == icon,
        read_battery(status, capacity, icon).charging is None,
{
}

/// The icon of a battery that is full, or at ninety-nine at least, is the one for that. Another
/// one's is named by the ten that its capacity has reached, and says that it charges exactly
/// where the power line or the battery says so. The icon before does not matter.
pub proof fn law_battery_icon(battery: BatteryView, level: nat)
    requires
        level % 10 == 0,
        level <= battery.capacity < level + 10,
    ensures
        battery.status is Full || battery.capacity >= 99 ==> battery_icon(battery)
            == "battery-level-100-charged-symbolic"@,
        !(battery.status is Full) && battery.capacity < 99 && (battery.charging == Some(true)
            || battery.status is Charging) ==> battery_icon(battery) == "battery-level-"@ + decimal_text(
            level,
        ) + "-charging"@ + "-symbolic"@,
        !(battery.status is Full) && battery.capacity < 99 && battery.charging != Some(true)
            && !(battery.status is Charging) ==> battery_icon(battery) == "battery-level-"@ + decimal_text(
            level,
        ) + "-symbolic"@,
        is_charged(battery) <==> (battery.status is Full || battery.capacity >= 99),
        is_charging(battery) <==> (battery.charging == Some(true) || battery.status is Charging),
{
    reveal_strlit("");
    let c = battery.capacity;
    assert(level == (c / 10 * 10) as nat) by {
        assert(c as int / 10 == level as int / 10);
    }
    assert("battery-level-"@ + decimal_text(level) + ""@ + "-symbolic"@ =~= "battery-level-"@ + decimal_text(
        level,
    ) + "-symbolic"@);
}

/// After news of the capacity the icon is named by it, whatever was known before, unless the
/// battery counts as charged.
pub proof fn law_icon_follows_the_capacity(battery: BatteryView, capacity: u8, level: nat)
    requires
        level % 10 == 0,
        level <= capacity < level + 10,
        capacity < 99,
        !(battery.status is Full),
    ensures
        ({
            let after = with_event(battery, BatteryEvent::Capacity(capacity));
            let state = if battery.charging == Some(true) || battery.status is Charging {
                "-charging"@ + "-symbolic"@
            } else {
                "-symbolic"@
            };
            battery_icon(after) == "battery-level-"@ + decimal_text(level) + state
        }),
{
    let after = with_event(battery, BatteryEvent::Capacity(capacity));
    law_battery_icon(after, level);
    assert("battery-level-"@ + decimal_text(level) + ("-charging"@ + "-symbolic"@) =~= "battery-level-"@
        + decimal_text(level) + "-charging"@ + "-symbolic"@);
}

/// A backlight is low below thirty-three, high from sixty-six on, and medium between; what its
/// tooltip says is the number.
pub proof fn law_backlight(percentage: u32)
    ensures
        percentage < 33 <==> backlight_icon(percentage) == "display-brightness-low-symbolic"@,
        33 <= percentage < 66 <==> backlight_icon(percentage) == "display-brightness-medium-symbolic"@,
        percentage >= 66 <==> backlight_icon(percentage) == "display-brightness-high-symbolic"@,
        backlight_tooltip(percentage).token is Backlight,
        backlight_tooltip(percentage).text == decimal_text(percentage as nat),
{
    reveal_strlit("display-brightness-low-symbolic");
    reveal_strlit("display-brightness-medium-symbolic");
    reveal_strlit("display-brightness-high-symbolic");
    assert("display-brightness-low-symbolic"@.len() != "display-brightness-medium-symbolic"@.len());
    assert("display-brightness-low-symbolic"@.len() != "display-brightness-high-symbolic"@.len());
    assert("display-brightness-medium-symbolic"@.len() != "display-brightness-high-symbolic"@.len());
}

/// Every entry of the directory is a device but those that begin with a dot.
pub proof fn law_devices(first: u8, rest: Seq<u8>)
    ensures
        names_device(seq![first] + rest) <==> first != 0x2e,
        names_device(Seq::empty()),
{
    assert((seq![first] + rest)[0] == first);
}

} // verus!
