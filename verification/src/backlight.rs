//! The backlight's item on the bar.

use crate::icons::{answer, filled, request_view, wanted, Handle, IconCache, IconRequest, CAPACITY};
use crate::text::{decimal_text, push_decimal};
use crate::tooltip::{ContentView, TokenView, TooltipContent, TooltipToken};
use vstd::prelude::*;

verus! {

/// How bright the backlight is, and the icon that shows it.
#[derive(Debug)]
pub struct BacklightStatus {
    pub percentage: u32,
    pub icon: Option<Handle>,
}

/// The name of the icon for a brightness.
pub open spec fn backlight_icon(percentage: u32) -> Seq<char> {
    if percentage < 33 {
        "display-brightness-low-symbolic"@
    } else if percentage < 66 {
        "display-brightness-medium-symbolic"@
    } else {
        "display-brightness-high-symbolic"@
    }
}

/// What the tooltip says of a brightness.
pub open spec fn backlight_tooltip(percentage: u32) -> ContentView {
    ContentView { token: TokenView::Backlight, text: decimal_text(percentage as nat) }
}

/// The name of the icon for a brightness.
fn icon_for(percentage: u32) -> (res: &'static str)
    ensures
        res@ == backlight_icon(percentage),
{
    if percentage < 33 {
        "display-brightness-low-symbolic"
    } else if percentage < 66 {
        "display-brightness-medium-symbolic"
    } else {
        "display-brightness-high-symbolic"
    }
}

/// The icon to look for before a backlight of that brightness is shown.
pub fn wanted_icon(percentage: u32, icon_cache: &IconCache) -> (res: Option<IconRequest>)
    ensures
        request_view(res) == wanted(icon_cache@, backlight_icon(percentage), 64, true),
{
    icon_cache.with_size(icon_for(percentage), 64, true)
}

impl BacklightStatus {
    /// A backlight that was just read, with the icon that `loaded` or the cache gives.
    pub fn new(percentage: u32, icon_cache: &mut IconCache, loaded: Option<Handle>) -> (res: Self)
        requires
            old(icon_cache).wf(),
        ensures
            final(icon_cache).wf(),
            ({
                let key = backlight_icon(percentage);
                &&& res.percentage == percentage
                &&& res.icon == answer(old(icon_cache)@, key, loaded)
                &&& final(icon_cache)@ == filled(old(icon_cache)@, CAPACITY as nat, key, loaded)
            }),
    {
        let mut res = BacklightStatus { percentage, icon: None };
        res.load_icon(icon_cache, loaded);
        res
    }

    /// The name of the icon for the brightness.
    pub fn icon(&self) -> (res: &'static str)
        ensures
            res@ == backlight_icon(self.percentage),
    {
        icon_for(self.percentage)
    }

    /// Takes the icon that is kept for the brightness, or else `loaded`.
    pub fn load_icon(&mut self, icon_cache: &mut IconCache, loaded: Option<Handle>)
        requires
            old(icon_cache).wf(),
        ensures
            final(icon_cache).wf(),
            ({
                let key = backlight_icon(old(self).percentage);
                &&& final(self).percentage == old(self).percentage
                &&& final(self).icon == answer(old(icon_cache)@, key, loaded)
                &&& final(icon_cache)@ == filled(old(icon_cache)@, CAPACITY as nat, key, loaded)
            }),
    {
        self.icon = icon_cache.load(self.icon(), loaded);
    }

    /// Takes over a brightness that was just read, and its icon.
    pub fn update(&mut self, percentage: u32, icon_cache: &mut IconCache, loaded: Option<Handle>)
        requires
            old(icon_cache).wf(),
        ensures
            final(icon_cache).wf(),
            ({
                let key = backlight_icon(percentage);
                &&& final(self).percentage == percentage
                &&& final(self).icon == answer(old(icon_cache)@, key, loaded)
                &&& final(icon_cache)@ == filled(old(icon_cache)@, CAPACITY as nat, key, loaded)
            }),
    {
        self.percentage = percentage;
        self.load_icon(icon_cache, loaded)
    }

    /// What the tooltip says of the brightness.
    pub fn tooltip(&self) -> (res: TooltipContent)
        ensures
            res@ == backlight_tooltip(self.percentage),
    {
        let mut text = String::new();
        push_decimal(&mut text, self.percentage as u64);
        assert(text@ =~= decimal_text(self.percentage as nat));
        TooltipContent { token: TooltipToken::Backlight, text }
    }
}

/// Whether an entry of the directory of backlights is a device: all are but the directory itself
/// and the one above it, and others that begin with a dot.
pub open spec fn names_device(name: Seq<u8>) -> bool {
    !(name.len() > 0 && name[0] == 0x2e)
}

/// Tells whether an entry of the directory of backlights is a device.
pub fn is_device(name: &[u8]) -> (res: bool)
    ensures
        res == names_device(name@),
{
    !(name.len() > 0 && name[0] == 0x2e)
}

/// Finds the first device among the entries of the directory of backlights.
pub fn first_device(names: &Vec<Vec<u8>>) -> (res: Option<usize>)
    ensures
        match res {
            Some(i) => i < names@.len() && names_device(names@[i as int]@) && forall|j: int|
                0 <= j < i ==> !names_device((#[trigger] names@[j])@),
            None => forall|j: int| 0 <= j < names@.len() ==> !names_device((#[trigger] names@[j])@),
        },
{
    let mut i: usize = 0;
    while i < names.len()
        invariant
            i <= names.len(),
            forall|j: int| 0 <= j < i ==> !names_device((#[trigger] names@[j])@),
        decreases names.len() - i,
    {
        if is_device(names[i].as_slice()) {
            return Some(i);
        }
        i = i + 1;
    }
    None
}

} // verus!
