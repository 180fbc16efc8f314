//! What holds of what the bar shows.

use crate::icons::{pictured, Handle};
use crate::runner::bar::{
    button_style, logo_rgb, seen, shows, workspace_button, Bar, Content, Label, WorkspaceItem,
};
use crate::runner::surfaces::background_of;
use crate::runner::{Message, RunnerView};
use crate::theme::Palette;
use crate::tooltip::{drawn, Shaping};
use crate::windows::Tag;
use vstd::prelude::*;
use vstd::utf8::encode_utf8;

verus! {

/// A workspace's button switches to the workspace one higher than its place. It has the last
/// digit of that number exactly where the workspace is focused or alive, and a dot else. It looks
/// focused or urgent exactly where the workspace is.
pub proof fn law_workspace_buttons(runner: RunnerView, idx: int)
    requires
        0 <= idx < 16,
    ensures
        ({
            let button = workspace_button(runner, idx);
            let focused = runner.workspace_focused == idx;
            let alive = runner.workspaces.contains(idx);
            &&& button.id == idx + 1
            &&& button.focused <==> focused
            &&& button.urgent <==> runner.urgent.contains(idx)
            &&& button.label is Dot <==> !focused && !alive
            &&& button.label matches Label::Digit { digit, shaping } ==> (digit == if idx < 9 {
                idx + 1
            } else {
                idx - 9
            }) && (shaping == Shaping::Basic <==> focused)
        }),
{
}

/// A button is filled with the primary colour or that of the text where its workspace is focused,
/// with the pointer on it or not; with the danger colour where it is urgent, focused not, and
/// without the pointer; else not at all.
pub proof fn law_button_backgrounds(item: WorkspaceItem, palette: Palette)
    ensures
        item.focused ==> button_style(item, palette, true).background == Some(palette.primary),
        item.focused ==> button_style(item, palette, false).background == Some(palette.text),
        !item.focused ==> button_style(item, palette, true).background is None,
        !item.focused && item.urgent ==> button_style(item, palette, false).background == Some(
            palette.danger,
        ),
        !item.focused && !item.urgent ==> button_style(item, palette, false).background is None,
{
}

/// The text of a button has the bar's own colour where the workspace is focused or urgent, else
/// the primary colour under the pointer and that of the text without it. Only under the pointer
/// it glows, the more where it is focused.
pub proof fn law_button_texts(item: WorkspaceItem, palette: Palette, hovered: bool)
    ensures
        item.focused || item.urgent ==> button_style(item, palette, hovered).text == palette.background.rgb,
        !item.focused && !item.urgent ==> button_style(item, palette, true).text == palette.primary,
        !item.focused && !item.urgent ==> button_style(item, palette, false).text == palette.text,
        button_style(item, palette, false).shadow is None,
        button_style(item, palette, true).shadow matches Some(glow) && glow.rgb == palette.primary
            && glow.alpha == (if item.focused {
            55int
        } else {
            34
        }),
{
}

/// The logo has the colour of the text, and the primary colour under the pointer.
pub proof fn law_logo(palette: Palette)
    ensures
        logo_rgb(palette, false) == palette.text,
        logo_rgb(palette, true) == palette.primary,
{
}

/// The bar shows ten workspaces in their order, and the active window's icon, class and title; on
/// those the pointer asks for the window's description, and leaving closes it.
pub proof fn law_bar_shows_workspaces_and_title(bar: Bar, runner: RunnerView, idx: int)
    requires
        shows(bar, runner),
        0 <= idx < 10,
    ensures
        bar.workspaces@.len() == 10,
        bar.workspaces@[idx] == workspace_button(runner, idx),
        bar.workspaces@[idx].id == idx + 1,
        bar.title.class@ == runner.window.class,
        bar.title.title@ == runner.window.title,
        runner.window.icon is None ==> bar.title.icon is None,
        runner.window.icon matches Some(icon) ==> bar.title.icon == Some(pictured(icon, 240)),
        bar.title.on_enter == Message::WindowInfo,
        bar.title.on_exit == Message::CloseTooltip,
        bar.logo.on_press == Message::Hello,
        bar.logo.path@ == "/usr/share/pixmaps/archlinux-logo.svg"@,
{
}

/// Volume, backlight and battery are shown exactly where they have an icon, as that icon; the
/// pointer on one asks for its own tooltip, and leaving closes it. Leaving the battery also stops
/// its polling. A press does nothing.
pub proof fn law_bar_shows_items(bar: Bar, runner: RunnerView)
    requires
        shows(bar, runner),
    ensures
        bar.volume is Some <==> runner.volume.icon is Some,
        bar.volume matches Some(area) ==> area.icon == pictured(runner.volume.icon.unwrap(), 175)
            && area.on_enter == Message::Volume && area.on_exit == Message::CloseTooltip && area.on_press is None,
        bar.backlight is Some <==> (runner.backlight matches Some(b) && b.icon is Some),
        bar.backlight matches Some(area) ==> area.icon == pictured(
            runner.backlight.unwrap().icon.unwrap(),
            175,
        ) && area.on_enter == Message::Backlight && area.on_exit == Message::CloseTooltip
            && area.on_press is None,
        bar.battery is Some <==> (runner.battery matches Some(b) && b.icon is Some),
        bar.battery matches Some(area) ==> area.icon == pictured(
            runner.battery.unwrap().icon.unwrap(),
            175,
        ) && area.on_enter == Message::Battery && area.on_exit == Message::BatteryStop
            && area.on_press is None,
        encode_utf8(bar.clock.date@) == runner.clock.date,
        encode_utf8(bar.clock.time@) == runner.clock.time,
        bar.clock.weekday@ == runner.clock.weekday,
{
}

/// Every tray item with an icon is shown, and nothing else is.
pub proof fn law_bar_shows_the_tray(bar: Bar, runner: RunnerView, service: Seq<char>, i: int)
    requires
        shows(bar, runner),
    ensures
        runner.tray.contains_key(service) && runner.tray[service].icon is Some ==> exists|j: int|
            0 <= j < bar.tray@.len() && ((#[trigger] bar.tray@[j]).on_enter matches Message::TrayTooltip(s)
                && s@ == service) && bar.tray@[j].icon == pictured(runner.tray[service].icon.unwrap(), 220),
        0 <= i < bar.tray@.len() ==> {
            let area = bar.tray@[i];
            &&& area.on_enter matches Message::TrayTooltip(s) && runner.tray.contains_key(s@)
                && runner.tray[s@].icon is Some && area.icon == pictured(runner.tray[s@].icon.unwrap(), 220)
                && (area.on_press matches Some(Message::TrayAction(t)) && t@ == s@)
            &&& area.on_exit == Message::CloseTooltip
        },
{
    let areas = bar.tray@;
    let shown = choose|shown: Seq<(String, Handle)>| #[trigger]
        crate::tray::shows_tray(shown, runner.tray) && areas.len() == shown.len() && forall|i: int|
            0 <= i < areas.len() ==> crate::runner::bar::tray_area(#[trigger] areas[i], shown[i]);
    if runner.tray.contains_key(service) && runner.tray[service].icon is Some {
        let j = choose|j: int| 0 <= j < shown.len() && (#[trigger] shown[j]).0@ == service;
        assert(crate::runner::bar::tray_area(areas[j], shown[j]));
    }
    if 0 <= i < areas.len() {
        assert(crate::runner::bar::tray_area(areas[i], shown[i]));
    }
}

/// No two areas of the tray are for the same service.
pub proof fn law_tray_items_are_shown_once(bar: Bar, runner: RunnerView, i: int, j: int)
    requires
        shows(bar, runner),
        0 <= i < bar.tray@.len(),
        0 <= j < bar.tray@.len(),
        i != j,
    ensures
        bar.tray@[i].on_enter->TrayTooltip_0@ != bar.tray@[j].on_enter->TrayTooltip_0@,
{
    let areas = bar.tray@;
    let shown = choose|shown: Seq<(String, Handle)>| #[trigger]
        crate::tray::shows_tray(shown, runner.tray) && areas.len() == shown.len() && forall|i: int|
            0 <= i < areas.len() ==> crate::runner::bar::tray_area(#[trigger] areas[i], shown[i]);
    assert(crate::runner::bar::tray_area(areas[i], shown[i]));
    assert(crate::runner::bar::tray_area(areas[j], shown[j]));
    assert(shown[i].0@ != shown[j].0@);
}

/// The bar's window shows the bar, the tooltip's what the tooltip says, and nothing where there
/// is none. The bar has the palette's background, the tooltip's window none.
pub proof fn law_windows_show(content: Content, runner: RunnerView, tag: Tag, palette: Palette)
    requires
        seen(content, runner, tag),
    ensures
        tag == Tag::Bar ==> (content matches Content::Bar(bar) && shows(bar, runner)),
        tag == Tag::Tooltip && runner.tooltip is None ==> content is Empty,
        tag == Tag::Tooltip ==> (runner.tooltip matches Some(tooltip) ==> (content matches Content::Tooltip(
            text,
        ) && text@ == drawn(tooltip.content))),
        background_of(palette, Tag::Bar) == palette.background,
        background_of(palette, Tag::Tooltip).alpha == 0,
{
}

} // verus!
