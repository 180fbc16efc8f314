//! The volume's item on the bar.

use crate::float::{is_less, is_nan, less, nan};
use crate::icons::{answer, filled, request_view, wanted, Entries, Handle, IconCache, IconRequest, CAPACITY};
use crate::pipewire::{level_view, Event, EventView, Level, LevelView};
use crate::text::same_text;
use crate::tooltip::{content_view, ContentView, TokenView, TooltipContent, TooltipToken};
use vstd::prelude::*;

verus! {

/// The bits of 0.33, where low ends.
pub const LOW: u32 = 0x3ea8_f5c3;

/// The bits of 0.67, where medium ends.
pub const MEDIUM: u32 = 0x3f2b_851f;

/// The bits of 1.0, where high ends.
pub const FULL: u32 = 0x3f80_0000;

/// What is known of the default sink, and the icon that shows it.
pub struct Volume {
    pub display: String,
    pub route: String,
    pub mute: Option<bool>,
    pub value: Option<Level>,
    pub icon: Option<Handle>,
}

/// The model of a [`Volume`].
pub struct VolumeView {
    pub display: Seq<char>,
    pub route: Seq<char>,
    pub mute: Option<bool>,
    pub value: Option<LevelView>,
    pub icon: Option<Handle>,
}

impl View for Volume {
    type V = VolumeView;

    open spec fn view(&self) -> VolumeView {
        VolumeView {
            display: self.display@,
            route: self.route@,
            mute: self.mute,
            value: level_view(self.value),
            icon: self.icon,
        }
    }
}

/// A sink that nothing is known of.
pub open spec fn no_volume() -> VolumeView {
    VolumeView { display: Seq::empty(), route: Seq::empty(), mute: None, value: None, icon: None }
}

/// The name of the icon for a loudness.
pub open spec fn level_icon(bits: u32) -> Option<Seq<char>> {
    if is_nan(bits) {
        None
    } else if less(bits, LOW) {
        Some("audio-volume-low-symbolic"@)
    } else if !less(MEDIUM, bits) {
        Some("audio-volume-medium-symbolic"@)
    } else if !less(FULL, bits) {
        Some("audio-volume-high-symbolic"@)
    } else {
        Some("audio-volume-overamplified-symbolic"@)
    }
}

/// The name of the icon for the volume, as far as one can be told.
pub open spec fn volume_icon(volume: VolumeView) -> Option<Seq<char>> {
    if volume.route == "Headphones"@ {
        Some("headphones-symbolic"@)
    } else {
        match (volume.mute, volume.value) {
            (Some(true), _) => Some("audio-volume-muted-symbolic"@),
            (Some(false), Some(level)) => level_icon(level.bits),
            _ => None,
        }
    }
}

/// What the tooltip says of the volume, as far as anything can be told.
pub open spec fn volume_tooltip(volume: VolumeView) -> Option<ContentView> {
    match (volume.mute, volume.value) {
        (Some(true), _) => Some(ContentView { token: TokenView::Volume, text: "Muted"@ }),
        (Some(false), Some(level)) => Some(
            ContentView { token: TokenView::Volume, text: level.percent },
        ),
        _ => None,
    }
}

/// The volume after news of the default sink, its icon aside.
pub open spec fn with_news(volume: VolumeView, event: EventView) -> VolumeView {
    match event {
        EventView::DefaultChanged { display, route } => VolumeView { display, route, ..volume },
        EventView::Volume(level) => VolumeView { value: Some(level), ..volume },
        EventView::Mute(mute) => VolumeView { mute: Some(mute), ..volume },
    }
}

/// The volume with the icon that `loaded` or the cache gives, if it has one.
pub open spec fn with_icon(
    volume: VolumeView,
    entries: Entries,
    loaded: Option<Handle>,
) -> VolumeView {
    match volume_icon(volume) {
        Some(key) => VolumeView { icon: answer(entries, key, loaded), ..volume },
        None => volume,
    }
}

/// What is kept after the icon for the volume was looked up.
pub open spec fn after_icon(
    volume: VolumeView,
    entries: Entries,
    loaded: Option<Handle>,
) -> Entries {
    match volume_icon(volume) {
        Some(key) => filled(entries, CAPACITY as nat, key, loaded),
        None => entries,
    }
}

/// The model of an optional name.
pub open spec fn name_view(name: Option<&'static str>) -> Option<Seq<char>> {
    match name {
        Some(n) => Some(n@),
        None => None,
    }
}

/// The name of the icon for a sink with that route, muteness and loudness.
fn icon_for(route: &str, mute: Option<bool>, value: Option<u32>) -> (res: Option<&'static str>)
    ensures
        name_view(res) == (if route@ == "Headphones"@ {
            Some("headphones-symbolic"@)
        } else {
            match (mute, value) {
                (Some(true), _) => Some("audio-volume-muted-symbolic"@),
                (Some(false), Some(bits)) => level_icon(bits),
                _ => None,
            }
        }),
{
    if same_text(route, "Headphones") {
        return Some("headphones-symbolic");
    }
    if mute? {
        return Some("audio-volume-muted-symbolic");
    }
    let bits: u32 = value?;
    if nan(bits) {
        None
    } else if is_less(bits, LOW) {
        Some("audio-volume-low-symbolic")
    } else if !is_less(MEDIUM, bits) {
        Some("audio-volume-medium-symbolic")
    } else if !is_less(FULL, bits) {
        Some("audio-volume-high-symbolic")
    } else {
        Some("audio-volume-overamplified-symbolic")
    }
}

impl Volume {
    /// A sink that nothing is known of.
    pub fn new() -> (res: Self)
        ensures
            res@ == no_volume(),
    {
        Volume { display: String::new(), route: String::new(), mute: None, value: None, icon: None }
    }

    /// The name of the icon for the volume, as far as one can be told.
    pub fn icon(&self) -> (res: Option<&'static str>)
        ensures
            name_view(res) == volume_icon(self@),
    {
        let bits: Option<u32> = match &self.value {
            Some(level) => Some(level.bits),
            None => None,
        };
        icon_for(self.route.as_str(), self.mute, bits)
    }

    /// The icon to look for before [`Volume::load_icon`], once `event` was taken over.
    pub fn wanted_icon(&self, event: &Event, icon_cache: &IconCache) -> (res: Option<IconRequest>)
        ensures
            request_view(res) == match volume_icon(with_news(self@, event@)) {
                Some(key) => wanted(icon_cache@, key, 16, true),
                None => None,
            },
    {
        let mut route: &str = self.route.as_str();
        let mut mute: Option<bool> = self.mute;
        let mut bits: Option<u32> = match &self.value {
            Some(level) => Some(level.bits),
            None => None,
        };
        match event {
            Event::DefaultChanged { display: _, route: r } => {
                route = r.as_str();
            },
            Event::Volume(level) => {
                bits = Some(level.bits);
            },
            Event::Mute(m) => {
                mute = Some(*m);
            },
        }
        match icon_for(route, mute, bits) {
            Some(key) => icon_cache.with_size(key, 16, true),
            None => None,
        }
    }

    /// Takes the icon that is kept for the volume, or else `loaded`; where no icon can be told,
    /// the one before stays.
    pub fn load_icon(&mut self, icon_cache: &mut IconCache, loaded: Option<Handle>)
        requires
            old(icon_cache).wf(),
        ensures
            final(icon_cache).wf(),
            final(self)@ == with_icon(old(self)@, old(icon_cache)@, loaded),
            final(icon_cache)@ == after_icon(old(self)@, old(icon_cache)@, loaded),
    {
        match self.icon() {
            Some(key) => {
                self.icon = icon_cache.load(key, loaded);
            },
            None => {},
        }
    }

    /// Takes over news of the default sink.
    pub fn apply(&mut self, event: Event)
        ensures
            final(self)@ == with_news(old(self)@, event@),
    {
        match event {
            Event::DefaultChanged { display, route } => {
                self.display = display;
                self.route = route;
            },
            Event::Volume(level) => {
                self.value = Some(level);
            },
            Event::Mute(mute) => {
                self.mute = Some(mute);
            },
        }
    }

    /// What the tooltip says of the volume, as far as anything can be told.
    pub fn tooltip(&self) -> (res: Option<TooltipContent>)
        ensures
            content_view(res) == volume_tooltip(self@),
    {
        let text = if self.mute? {
            "Muted".to_owned()
        } else {
            match &self.value {
                Some(level) => level.percent.clone(),
                None => {
                    return None;
                },
            }
        };
        Some(TooltipContent { token: TooltipToken::Volume, text })
    }
}

} // verus!
