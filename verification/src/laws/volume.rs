//! What holds of the volume.

use crate::icons::{filled, kept, Entries, Handle, CAPACITY};
use crate::pipewire::{EventView, LevelView};
use crate::volume::{
    after_icon, level_icon, no_volume, volume_icon, volume_tooltip, with_icon, with_news, VolumeView,
};
use vstd::prelude::*;

verus! {

/// The volume after a run of news.
pub open spec fn told(volume: VolumeView, news: Seq<EventView>) -> VolumeView
    decreases news.len(),
{
    if news.len() == 0 {
        volume
    } else {
        with_news(told(volume, news.drop_last()), news.last())
    }
}

/// Whether the piece of news at `at` is the last that `of` picks, or whether there is none where
/// `at` is none.
pub open spec fn last_news(news: Seq<EventView>, of: spec_fn(EventView) -> bool, at: Option<int>) -> bool {
    match at {
        Some(i) => 0 <= i < news.len() && of(news[i]) && forall|j: int|
            i < j < news.len() ==> !of(#[trigger] news[j]),
        None => forall|j: int| 0 <= j < news.len() ==> !of(#[trigger] news[j]),
    }
}

/// There is a last piece of news of any kind, or none.
proof fn lemma_some_last(news: Seq<EventView>, of: spec_fn(EventView) -> bool) -> (at: Option<int>)
    ensures
        last_news(news, of, at),
    decreases news.len(),
{
    if news.len() == 0 {
        None
    } else if of(news.last()) {
        Some(news.len() - 1)
    } else {
        let head = news.drop_last();
        let at = lemma_some_last(head, of);
        assert forall|j: int| 0 <= j < head.len() implies head[j] == #[trigger] news[j] by {}
        at
    }
}

/// After any run of news the mute switch is the one told last, whatever volumes and sinks were
/// told besides; so are the volume and the names. What was never told stays.
pub proof fn law_last_news_count(
    volume: VolumeView,
    news: Seq<EventView>,
    mute: Option<int>,
    value: Option<int>,
    names: Option<int>,
)
    requires
        last_news(news, |e: EventView| e is Mute, mute),
        last_news(news, |e: EventView| e is Volume, value),
        last_news(news, |e: EventView| e is DefaultChanged, names),
    ensures
        told(volume, news).mute == match mute {
            Some(i) => Some(news[i]->Mute_0),
            None => volume.mute,
        },
        told(volume, news).value == match value {
            Some(i) => Some(news[i]->Volume_0),
            None => volume.value,
        },
        told(volume, news).display == match names {
            Some(i) => news[i]->display,
            None => volume.display,
        },
        told(volume, news).route == match names {
            Some(i) => news[i]->route,
            None => volume.route,
        },
        told(volume, news).icon == volume.icon,
    decreases news.len(),
{
    if news.len() > 0 {
        let head = news.drop_last();
        let last = news.len() - 1;
        assert(news.last() == news[last]);
        assert forall|j: int| 0 <= j < head.len() implies head[j] == #[trigger] news[j] by {}
        let m = if mute == Some(last) {
            lemma_some_last(head, |e: EventView| e is Mute)
        } else {
            mute
        };
        let v = if value == Some(last) {
            lemma_some_last(head, |e: EventView| e is Volume)
        } else {
            value
        };
        let n = if names == Some(last) {
            lemma_some_last(head, |e: EventView| e is DefaultChanged)
        } else {
            names
        };
        law_last_news_count(volume, head, m, v, n);
    }
}

/// A sink that was muted last is shown as muted, whatever volumes follow: its tooltip says so,
/// and its icon does unless headphones are in use.
pub proof fn law_muted_stays_muted(volume: VolumeView, news: Seq<EventView>, at: int)
    requires
        last_news(news, |e: EventView| e is Mute, Some(at)),
        news[at]->Mute_0,
    ensures
        volume_tooltip(told(volume, news)) is Some,
        volume_tooltip(told(volume, news)).unwrap().text == "Muted"@,
        told(volume, news).route != "Headphones"@ ==> volume_icon(told(volume, news)) == Some(
            "audio-volume-muted-symbolic"@,
        ),
{
    let value = lemma_some_last(news, |e: EventView| e is Volume);
    let names = lemma_some_last(news, |e: EventView| e is DefaultChanged);
    law_last_news_count(volume, news, Some(at), value, names);
}

/// The icon for a loudness by the bits of the number: low below 0.33, negative numbers included,
/// medium up to 0.67, high up to one, and more than that beyond. What is no number has none.
pub proof fn law_level_icon(bits: u32)
    ensures
        bits < 0x3ea8_f5c3 ==> level_icon(bits) == Some("audio-volume-low-symbolic"@),
        0x3ea8_f5c3 <= bits <= 0x3f2b_851f ==> level_icon(bits) == Some("audio-volume-medium-symbolic"@),
        0x3f2b_851f < bits <= 0x3f80_0000 ==> level_icon(bits) == Some("audio-volume-high-symbolic"@),
        0x3f80_0000 < bits <= 0x7f80_0000 ==> level_icon(bits) == Some(
            "audio-volume-overamplified-symbolic"@,
        ),
        0x7f80_0000 < bits < 0x8000_0000 ==> level_icon(bits) is None,
        0x8000_0000 <= bits <= 0xff80_0000 ==> level_icon(bits) == Some("audio-volume-low-symbolic"@),
        0xff80_0000 < bits ==> level_icon(bits) is None,
{
}

/// Headphones have their own icon, whatever else is known. Else a muted sink has its own, a sink
/// that is not muted that of its loudness, and one of which either is not known none.
pub proof fn law_volume_icon(volume: VolumeView, level: LevelView)
    ensures
        volume.route == "Headphones"@ ==> volume_icon(volume) == Some("headphones-symbolic"@),
        volume.route != "Headphones"@ && volume.mute is None ==> volume_icon(volume) is None,
        volume.route != "Headphones"@ && volume.mute == Some(true) ==> volume_icon(volume) == Some(
            "audio-volume-muted-symbolic"@,
        ),
        volume.route != "Headphones"@ && volume.mute == Some(false) && volume.value == Some(level)
            ==> volume_icon(volume) == level_icon(level.bits),
        volume.route != "Headphones"@ && volume.mute == Some(false) && volume.value is None
            ==> volume_icon(volume) is None,
{
}

/// The tooltip says that a muted sink is, and of another how loud it is in percent; where either
/// is not known it says nothing. The route does not matter.
pub proof fn law_volume_tooltip(volume: VolumeView, level: LevelView)
    ensures
        volume.mute is None ==> volume_tooltip(volume) is None,
        volume.mute == Some(true) ==> volume_tooltip(volume) is Some && volume_tooltip(volume).unwrap().text
            == "Muted"@,
        volume.mute == Some(false) && volume.value == Some(level) ==> volume_tooltip(volume) is Some
            && volume_tooltip(volume).unwrap().text == level.percent,
        volume.mute == Some(false) && volume.value is None ==> volume_tooltip(volume) is None,
        volume_tooltip(volume) is Some ==> volume_tooltip(volume).unwrap().token is Volume,
{
}

/// Nothing is known of a sink at first.
pub proof fn law_no_volume()
    ensures
        no_volume().mute is None,
        no_volume().value is None,
        no_volume().icon is None,
        no_volume().route.len() == 0,
        no_volume().display.len() == 0,
        volume_tooltip(no_volume()) is None,
        volume_icon(no_volume()) is None,
{
    reveal_strlit("Headphones");
}

/// Loading an icon changes nothing but the icon. Where one can be told, it is the one that is
/// kept, or else what was loaded, which is kept from then on; where none can, the icon stays.
pub proof fn law_loading_changes_the_icon(volume: VolumeView, entries: Entries, loaded: Option<Handle>)
    ensures
        ({
            let after = with_icon(volume, entries, loaded);
            &&& after.display == volume.display && after.route == volume.route
            &&& after.mute == volume.mute && after.value == volume.value
            &&& match volume_icon(volume) {
                Some(key) => {
                    &&& kept(entries, key) matches Some(handle) ==> after.icon == handle
                    &&& kept(entries, key) is None ==> after.icon == loaded
                    &&& after_icon(volume, entries, loaded) == filled(
                        entries,
                        CAPACITY as nat,
                        key,
                        loaded,
                    )
                },
                None => after.icon == volume.icon && after_icon(volume, entries, loaded) == entries,
            }
        }),
{
}

} // verus!
