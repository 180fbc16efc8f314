//! What holds of the state, event by event.

use crate::backlight::{backlight_icon, backlight_tooltip};
use crate::battery::{battery_icon, with_event, BatteryEvent, BatteryView};
use crate::events::{AppEvent, Polled};
use crate::hyprland;
use crate::hyprland::{Command, Query, ReqTokenView, RequestView};
use crate::icons::{answer, filled, kept, position, Handle, CAPACITY};
use crate::runner::dispatch::{
    admissible, after_backlight, after_backlight_read, after_battery_read, after_event, after_tray_read, effects,
    retells, wanted_by, wanted_by_backlight,
};
use crate::runner::start::{initial, wanted_at_first, wanted_by_battery, BatteryReading};
use crate::runner::surfaces::{
    after_popup, after_surface_event, attached_to, openable, planned, surface_actions, Attachment, MouseEvent,
    Popup, SurfaceAction, SurfaceEvent,
};
use crate::runner::{
    after_message, along_the_top, asked, closed, closing, opening, reaction, ActionView, Message, RunnerView, TooltipView,
};
use crate::text::byte_len;
use crate::theme::dark;
use crate::tooltip::{ContentView, Extent, Placement, TokenView};
use crate::tray::{TrayEvent, TrayItem};
use crate::volume::{volume_icon, volume_tooltip, with_news};
use crate::windows::{focused_window, found, Role, Tag, Window};
use vstd::prelude::*;
use vstd::utf8::valid_utf8;

verus! {

/// Whether `shown` is a beginning of `text` and an ellipsis, as long as `limit` bytes allow.
pub open spec fn cut_to(shown: Seq<char>, text: Seq<char>, limit: int) -> bool {
    &&& limit - 4 < byte_len(shown) <= limit
    &&& exists|n: int| 0 <= n <= text.len() && shown == #[trigger] text.take(n) + "…"@
}

proof fn lemma_ellipsis()
    ensures
        byte_len("…"@) == 3,
{
    reveal_strlit("…");
    reveal_with_fuel(vstd::utf8::encode_utf8, 2);
    assert("…"@ =~= seq!['…']);
}

/// Workspaces are numbered from one to sixteen, a changed backlight is taken where there is one,
/// and a clock where it can be read; everything else is taken always.
pub proof fn law_admissible(runner: RunnerView, event: AppEvent)
    ensures
        event matches AppEvent::Urgent(id) ==> (admissible(runner, event) <==> 1 <= id <= 16),
        event matches AppEvent::Hyprland(hyprland::Event::Workspace { id }) ==> (admissible(runner, event)
            <==> 1 <= id <= 16),
        event matches AppEvent::Hyprland(hyprland::Event::CreateWorkspace { id }) ==> (admissible(
            runner,
            event,
        ) <==> 1 <= id <= 16),
        event matches AppEvent::Hyprland(hyprland::Event::DestroyWorkspace { id }) ==> (admissible(
            runner,
            event,
        ) <==> 1 <= id <= 16),
        event is Backlight ==> (admissible(runner, event) <==> runner.backlight is Some),
        event matches AppEvent::Polling(Polled::Clock(clock)) ==> (admissible(runner, event) <==> valid_utf8(
            clock@.date,
        ) && valid_utf8(clock@.time)),
        event is WindowInfo || event is Battery || event is Tray || event is Pipewire ==> admissible(
            runner,
            event,
        ),
        event matches AppEvent::Polling(Polled::Battery(_)) ==> admissible(runner, event),
        event matches AppEvent::Hyprland(hyprland::Event::ActiveWindow { .. }) ==> admissible(runner, event),
        event matches AppEvent::Hyprland(hyprland::Event::Urgent { .. }) ==> admissible(runner, event),
{
}

/// The active window is shown by its class and its title: whole where they take fewer than
/// fifteen and fifty bytes, else cut to that, each by its own measure. Its icon is the one of the
/// whole class, and there is none without a class.
pub proof fn law_active_window(runner: RunnerView, class: String, title: String, loaded: Option<Handle>)
    ensures
        ({
            let event = AppEvent::Hyprland(hyprland::Event::ActiveWindow { class, title });
            let after = after_event(runner, event, loaded);
            &&& byte_len(title@) < 50 ==> after.window.title == title@
            &&& byte_len(title@) >= 50 ==> cut_to(after.window.title, title@, 50)
            &&& byte_len(class@) < 15 ==> after.window.class == class@
            &&& byte_len(class@) >= 15 ==> cut_to(after.window.class, class@, 15)
            &&& class@.len() == 0 ==> after.window.icon is None && after.icons == runner.icons
            &&& class@.len() > 0 ==> after.window.icon == answer(runner.icons, class@, loaded)
            &&& class@.len() > 0 ==> after.icons == filled(runner.icons, CAPACITY as nat, class@, loaded)
        }),
{
    lemma_ellipsis();
    crate::laws::text::law_cut_or_whole(title@, 50, "…"@);
    crate::laws::text::law_cut_or_whole(class@, 15, "…"@);
    if byte_len(title@) >= 50 {
        crate::text::law_truncated_nearly_fills(title@, 50, "…"@);
    }
    if byte_len(class@) >= 15 {
        crate::text::law_truncated_nearly_fills(class@, 15, "…"@);
    }
}

/// An event changes what it is about, and nothing else: no event touches the windows, the focus,
/// the callbacks, the colours or the backlight, and each part has the events that touch it.
pub proof fn law_events_touch_their_part(runner: RunnerView, event: AppEvent, loaded: Option<Handle>)
    ensures
        ({
            let after = after_event(runner, event, loaded);
            let names_icon = event matches AppEvent::Tray(e) && (e is Registered || e is NewIcon);
            let polls_battery = event matches AppEvent::Polling(e) && e is Battery;
            let polls_clock = event matches AppEvent::Polling(e) && e is Clock;
            &&& after.dbus == runner.dbus && after.theme == runner.theme
            &&& after.windows == runner.windows && after.focused == runner.focused
            &&& after.callbacks == runner.callbacks && after.backlight == runner.backlight
            &&& !(event matches AppEvent::Hyprland(e) && (e is CreateWorkspace || e is DestroyWorkspace))
                ==> after.workspaces == runner.workspaces
            &&& !(event is Urgent) && !(event matches AppEvent::Hyprland(e) && (e is Workspace
                || e is DestroyWorkspace)) ==> after.urgent == runner.urgent
            &&& !(event matches AppEvent::Hyprland(e) && e is Workspace) ==> after.workspace_focused
                == runner.workspace_focused
            &&& !(event matches AppEvent::Hyprland(e) && e is ActiveWindow) ==> after.window
                == runner.window
            &&& !(event is Tray) ==> after.tray == runner.tray
            &&& !(event is Battery) ==> after.battery == runner.battery
            &&& !(event is Pipewire) ==> after.volume == runner.volume
            &&& !polls_clock ==> after.clock == runner.clock
            &&& !(event is Pipewire) && !polls_battery ==> after.tooltip == runner.tooltip
            &&& !(event is Pipewire) && !(event is Battery) && !names_icon && !(
            event matches AppEvent::Hyprland(e) && e is ActiveWindow) ==> after.icons == runner.icons
        }),
{
}

/// The workspace that was switched to is focused and no longer urgent; one that was created is
/// alive, one that was destroyed neither alive nor urgent, and one that wants attention urgent. No
/// other workspace changes.
pub proof fn law_workspaces(runner: RunnerView, id: usize, loaded: Option<Handle>, other: int)
    requires
        1 <= id <= 16,
        other != id - 1,
    ensures
        ({
            let after = after_event(runner, AppEvent::Hyprland(hyprland::Event::Workspace { id }), loaded);
            &&& after.workspace_focused == id - 1
            &&& !after.urgent.contains(id - 1)
            &&& after.urgent.contains(other) == runner.urgent.contains(other)
        }),
        ({
            let after = after_event(
                runner,
                AppEvent::Hyprland(hyprland::Event::CreateWorkspace { id }),
                loaded,
            );
            &&& after.workspaces.contains(id - 1)
            &&& after.workspaces.contains(other) == runner.workspaces.contains(other)
        }),
        ({
            let after = after_event(
                runner,
                AppEvent::Hyprland(hyprland::Event::DestroyWorkspace { id }),
                loaded,
            );
            &&& !after.workspaces.contains(id - 1) && !after.urgent.contains(id - 1)
            &&& after.workspaces.contains(other) == runner.workspaces.contains(other)
            &&& after.urgent.contains(other) == runner.urgent.contains(other)
        }),
        ({
            let after = after_event(runner, AppEvent::Urgent(id), loaded);
            &&& after.urgent.contains(id - 1)
            &&& after.urgent.contains(other) == runner.urgent.contains(other)
        }),
{
}

/// News of the battery are known from then on: the capacity, the status or the power line that
/// was told, whatever was known before, and nothing else of it. Its icon follows exactly where
/// anything has changed, and is the one for what is known then. Without a battery nothing is known.
pub proof fn law_battery_news(runner: RunnerView, event: BatteryEvent, loaded: Option<Handle>)
    ensures
        ({
            let after = after_event(runner, AppEvent::Battery(event), loaded);
            &&& runner.battery is None ==> after == runner
            &&& runner.battery matches Some(was) ==> {
                &&& after.battery is Some
                &&& {
                    let is = after.battery.unwrap();
                    let changed = is.capacity != was.capacity || is.status != was.status || is.charging
                        != was.charging;
                    &&& event matches BatteryEvent::Capacity(x) ==> is.capacity == x
                    &&& !(event is Capacity) ==> is.capacity == was.capacity
                    &&& event matches BatteryEvent::Status(x) ==> is.status == x
                    &&& !(event is Status) ==> is.status == was.status
                    &&& event is PowerOnline ==> is.charging == Some(true)
                    &&& event is PowerOffline ==> is.charging == Some(false)
                    &&& event is Capacity || event is Status ==> is.charging == was.charging
                    &&& !changed ==> after == runner
                    &&& changed ==> {
                        let key = battery_icon(is);
                        &&& is.icon == answer(runner.icons, key, loaded)
                        &&& after.icons == filled(runner.icons, CAPACITY as nat, key, loaded)
                    }
                }
            }
        }),
{
    if runner.battery is Some {
        let was = runner.battery.unwrap();
        let after = after_event(runner, AppEvent::Battery(event), loaded);
        let is = after.battery.unwrap();
        let bare = with_event(was, event);
        assert(battery_icon(is) == battery_icon(bare));
        if is.capacity == was.capacity && is.status == was.status && is.charging == was.charging {
            assert(bare == was);
        }
    }
}

/// A tray item is there once it is registered, with the icon of the name it gave, and gone once
/// it is not; a new icon is for an item that is there; a lost connection empties the tray. Other
/// items stay as they are but for that.
pub proof fn law_tray(
    runner: RunnerView,
    service: String,
    icon_name: String,
    loaded: Option<Handle>,
    other: Seq<char>,
)
    requires
        other != service@,
    ensures
        ({
            let after = after_event(
                runner,
                AppEvent::Tray(TrayEvent::Registered { service, icon_name }),
                loaded,
            );
            &&& after.tray.contains_key(service@)
            &&& after.tray[service@].icon == answer(runner.icons, icon_name@, loaded)
            &&& after.tray.contains_key(other) == runner.tray.contains_key(other)
            &&& runner.tray.contains_key(other) ==> after.tray[other] == runner.tray[other]
            &&& after.icons == filled(runner.icons, CAPACITY as nat, icon_name@, loaded)
        }),
        ({
            let after = after_event(
                runner,
                AppEvent::Tray(TrayEvent::NewIcon { service, icon_name }),
                loaded,
            );
            &&& after.tray.contains_key(service@) == runner.tray.contains_key(service@)
            &&& runner.tray.contains_key(service@) ==> after.tray[service@].icon == answer(
                runner.icons,
                icon_name@,
                loaded,
            )
            &&& after.tray.contains_key(other) == runner.tray.contains_key(other)
            &&& runner.tray.contains_key(other) ==> after.tray[other] == runner.tray[other]
            &&& after.icons == filled(runner.icons, CAPACITY as nat, icon_name@, loaded)
        }),
        ({
            let after = after_event(runner, AppEvent::Tray(TrayEvent::Unregistered(service)), loaded);
            &&& !after.tray.contains_key(service@)
            &&& after.tray.contains_key(other) == runner.tray.contains_key(other)
            &&& runner.tray.contains_key(other) ==> after.tray[other] == runner.tray[other]
        }),
        !after_event(runner, AppEvent::Tray(TrayEvent::Disconnected), loaded).tray.contains_key(other),
        !after_event(runner, AppEvent::Tray(TrayEvent::Disconnected), loaded).tray.contains_key(service@),
{
}

/// News of the default sink are known from then on: the volume, the mute switch or the names that
/// were told, and nothing else. The icon is the one for what is known then, where one can be told.
/// A tooltip about the volume says what is known then, as far as anything can be told; any other
/// stays as it is.
pub proof fn law_sound_news(runner: RunnerView, event: crate::pipewire::Event, loaded: Option<Handle>)
    ensures
        ({
            let after = after_event(runner, AppEvent::Pipewire(event), loaded);
            let was = runner.volume;
            let is = after.volume;
            &&& event matches crate::pipewire::Event::Volume(level) ==> is.value == Some(level@)
            &&& !(event is Volume) ==> is.value == was.value
            &&& event matches crate::pipewire::Event::Mute(on) ==> is.mute == Some(on)
            &&& !(event is Mute) ==> is.mute == was.mute
            &&& event matches crate::pipewire::Event::DefaultChanged { display, route } ==> is.display
                == display@ && is.route == route@
            &&& !(event is DefaultChanged) ==> is.display == was.display && is.route == was.route
            &&& volume_icon(is) matches Some(key) ==> is.icon == answer(runner.icons, key, loaded)
                && after.icons == filled(runner.icons, CAPACITY as nat, key, loaded)
            &&& volume_icon(is) is None ==> is.icon == was.icon && after.icons == runner.icons
            &&& runner.tooltip is None ==> after.tooltip is None
            &&& runner.tooltip matches Some(t) ==> {
                &&& after.tooltip is Some && after.tooltip.unwrap().window == t.window
                &&& t.content.token !is Volume || volume_tooltip(is) is None ==> after.tooltip
                    == runner.tooltip
                &&& t.content.token is Volume && volume_tooltip(is) is Some
                    ==> after.tooltip.unwrap().content == volume_tooltip(is).unwrap()
            }
        }),
{
    let bare = with_news(runner.volume, event@);
    let is = after_event(runner, AppEvent::Pipewire(event), loaded).volume;
    assert(volume_icon(is) == volume_icon(bare));
    assert(volume_tooltip(is) == volume_tooltip(bare));
}

/// The clock shows what was polled. A polled battery is told in the tooltip exactly where that is
/// about the battery, and in no other.
pub proof fn law_polled(runner: RunnerView, clock: crate::clock::ClockFace, text: String, loaded: Option<Handle>)
    ensures
        after_event(runner, AppEvent::Polling(Polled::Clock(clock)), loaded).clock == clock@,
        ({
            let event = AppEvent::Polling(Polled::Battery(text));
            let after = after_event(runner, event, loaded).tooltip;
            let concerned = runner.tooltip matches Some(t) && t.content.token is Battery;
            &&& retells(runner, event) <==> concerned
            &&& !concerned ==> after == runner.tooltip
            &&& concerned ==> after is Some && after.unwrap().content.text == text@
                && after.unwrap().content.token is Battery && after.unwrap().window
                == runner.tooltip.unwrap().window
        }),
{
}

/// A brightness that was read is known from then on, with its icon. Only a tooltip about it
/// follows; nothing else changes.
pub proof fn law_brightness(runner: RunnerView, percentage: u32, loaded: Option<Handle>)
    ensures
        ({
            let after = after_backlight(runner, percentage, loaded);
            let key = backlight_icon(percentage);
            let concerned = runner.tooltip matches Some(t) && t.content.token is Backlight;
            &&& after.backlight matches Some(b) && b.percentage == percentage && b.icon == answer(
                runner.icons,
                key,
                loaded,
            )
            &&& after.icons == filled(runner.icons, CAPACITY as nat, key, loaded)
            &&& !concerned ==> after.tooltip == runner.tooltip
            &&& concerned ==> after.tooltip == Some(
                TooltipView {
                    content: backlight_tooltip(percentage),
                    window: runner.tooltip.unwrap().window,
                },
            )
            &&& after.dbus == runner.dbus && after.theme == runner.theme
            &&& after.windows == runner.windows && after.focused == runner.focused
            &&& after.callbacks == runner.callbacks && after.workspaces == runner.workspaces
            &&& after.urgent == runner.urgent && after.workspace_focused == runner.workspace_focused
            &&& after.window == runner.window && after.tray == runner.tray
            &&& after.battery == runner.battery && after.volume == runner.volume
            &&& after.clock == runner.clock
        }),
{
}

/// The icon that is looked for on account of an event is the one that the event shows: the whole
/// class of a window, the name a tray item gave, or the one for what is then known of battery or
/// volume, each in its size and colours.
pub proof fn law_wanted_icons(runner: RunnerView, event: AppEvent, loaded: Option<Handle>)
    ensures
        ({
            let after = after_event(runner, event, loaded);
            match wanted_by(runner, event) {
                Some(r) => {
                    &&& kept(runner.icons, r.key) is None
                    &&& r.theme == "Tela-dracula-dark"@
                    &&& match event {
                        AppEvent::Hyprland(hyprland::Event::ActiveWindow { class, .. }) => r.key == class@
                            && r.size == 64 && !r.symbolic && after.window.icon == loaded,
                        AppEvent::Battery(_) => after.battery is Some && r.key == battery_icon(
                            after.battery.unwrap(),
                        ) && r.size == 64 && r.symbolic && after.battery.unwrap().icon == loaded,
                        AppEvent::Tray(TrayEvent::Registered { service, icon_name }) => r.key
                            == icon_name@ && r.size == 64 && !r.symbolic && after.tray[service@].icon
                            == loaded,
                        AppEvent::Tray(TrayEvent::NewIcon { service, icon_name }) => r.key == icon_name@
                            && r.size == 64 && !r.symbolic && (runner.tray.contains_key(service@)
                            ==> after.tray[service@].icon == loaded),
                        AppEvent::Pipewire(_) => volume_icon(after.volume) == Some(r.key) && r.size == 16
                            && r.symbolic && after.volume.icon == loaded,
                        _ => false,
                    }
                },
                None => after_event(runner, event, None) == after,
            }
        }),
{
    match event {
        AppEvent::Battery(e) => {
            if runner.battery is Some {
                let after = after_event(runner, event, loaded);
                assert(battery_icon(after.battery.unwrap()) == battery_icon(
                    with_event(runner.battery.unwrap(), e),
                ) || with_event(runner.battery.unwrap(), e) == runner.battery.unwrap());
            }
        },
        AppEvent::Pipewire(e) => {
            let after = after_event(runner, event, loaded);
            assert(volume_icon(after.volume) == volume_icon(with_news(runner.volume, e@)));
        },
        _ => {},
    }
}

/// After every event the windows are brought up to date, last and once, and the tooltip exactly
/// where its text was told anew; but for the backlight, which is read first, and does that then.
/// Before that, a window that wants attention is looked for among the clients, and the active
/// window's description is shown with its tabs spread out. Nothing else happens.
pub proof fn law_effects(runner: RunnerView, event: AppEvent, cursor: Option<u32>)
    ensures
        ({
            let list = effects(runner, event, cursor);
            let refresh = ActionView::Refresh { update_tooltip: retells(runner, event) };
            &&& event is Backlight ==> list == seq![ActionView::ReadBacklight]
            &&& !(event is Backlight) ==> list.len() > 0 && list.last() == refresh
            &&& event matches AppEvent::Hyprland(hyprland::Event::Urgent { win }) ==> list.len() == 2 && list[0]
                == ActionView::Request(
                RequestView::Query {
                    query: Query::Clients,
                    token: ReqTokenView::Urgent { win: win@ },
                },
            )
            &&& event matches AppEvent::WindowInfo(text) ==> list.drop_last() == opening(
                runner,
                cursor,
                ContentView {
                    token: TokenView::WindowInfo,
                    text: crate::text::char_replaced(text@, '\t', "        "@),
                },
            )
            &&& !(event is Backlight) && !(event is WindowInfo) && !(event matches AppEvent::Hyprland(e)
                && e is Urgent) ==> list.len() == 1
            &&& retells(runner, event) ==> event is Pipewire || (event matches AppEvent::Polling(e)
                && e is Battery)
        }),
{
    if let AppEvent::WindowInfo(text) = event {
        let list = effects(runner, event, cursor);
        assert(list.drop_last() =~= opening(
            runner,
            cursor,
            ContentView {
                token: TokenView::WindowInfo,
                text: crate::text::char_replaced(text@, '\t', "        "@),
            },
        ));
    }
}

/// The tooltip is told anew by news of the default sink exactly where it is about the volume, and
/// anything can be told of that then.
pub proof fn law_volume_tooltip_is_retold(runner: RunnerView, event: crate::pipewire::Event)
    ensures
        retells(runner, AppEvent::Pipewire(event)) <==> (runner.tooltip matches Some(t)
            && t.content.token is Volume) && volume_tooltip(with_news(runner.volume, event@)) is Some,
{
}

/// A tooltip opens on the window that the pointer is on, right below the bar, where the pointer
/// is; exactly where none is open, the pointer is on a window, and its place is known.
pub proof fn law_tooltips_open_below_the_bar(runner: RunnerView, cursor: Option<u32>, content: ContentView)
    ensures
        asked(runner, cursor, content) is None <==> runner.tooltip is Some || focused_window(
            runner.windows,
            runner.focused,
        ) is None,
        asked(runner, cursor, content) matches Some(list) ==> list == opening(runner, cursor, content),
        opening(runner, cursor, content).len() <= 1,
        opening(runner, cursor, content).len() == 1 <==> runner.tooltip is None && focused_window(
            runner.windows,
            runner.focused,
        ) is Some && cursor is Some,
        opening(runner, cursor, content).len() == 1 ==> (opening(
            runner,
            cursor,
            content,
        )[0] matches ActionView::OpenPopup { parent, place, content: shown } && Some(parent)
            == focused_window(runner.windows, runner.focused) && Some(place.x) == cursor && place.y == 36
            && shown == content),
{
}

/// What a widget reports makes the compositor switch, or asks for the active window, the battery,
/// the tray or a tooltip, as far as they are there; and leaving closes the tooltip.
pub proof fn law_reactions(runner: RunnerView, id: u8, service: String, cursor: Option<u32>)
    ensures
        reaction(runner, Message::Hello, cursor).len() == 0,
        reaction(runner, Message::Workspace { id }, cursor) == seq![
            ActionView::Request(RequestView::Command(Command::Workspace(id))),
        ],
        reaction(runner, Message::WindowInfo, cursor) == seq![
            ActionView::Request(
                RequestView::Query { query: Query::ActiveWindow, token: ReqTokenView::ActiveWindow },
            ),
        ],
        runner.battery is Some ==> reaction(runner, Message::Battery, cursor) == seq![
            ActionView::ReadBattery,
        ],
        runner.battery is None ==> reaction(runner, Message::Battery, cursor).len() == 0,
        runner.backlight matches Some(b) ==> reaction(runner, Message::Backlight, cursor) == opening(
            runner,
            cursor,
            backlight_tooltip(b.percentage),
        ),
        runner.backlight is None ==> reaction(runner, Message::Backlight, cursor).len() == 0,
        volume_tooltip(runner.volume) matches Some(content) ==> reaction(runner, Message::Volume, cursor)
            == opening(runner, cursor, content),
        volume_tooltip(runner.volume) is None ==> reaction(runner, Message::Volume, cursor).len() == 0,
        runner.dbus ==> reaction(runner, Message::TrayTooltip(service), cursor) == seq![
            ActionView::ReadTray(service@),
        ],
        runner.dbus ==> reaction(runner, Message::TrayAction(service), cursor) == seq![
            ActionView::ActivateTray(service@),
        ],
        !runner.dbus ==> reaction(runner, Message::TrayTooltip(service), cursor).len() == 0,
        !runner.dbus ==> reaction(runner, Message::TrayAction(service), cursor).len() == 0,
        reaction(runner, Message::CloseTooltip, cursor) == closing(runner),
        reaction(runner, Message::BatteryStop, cursor) == reaction(runner, Message::CloseTooltip, cursor).push(
            ActionView::StopBattery,
        ),
{
}

/// What a widget reports changes nothing by itself, but that leaving closes the tooltip; and that
/// takes away the tooltip and its window only.
pub proof fn law_messages_change_the_tooltip_only(runner: RunnerView, message: Message)
    ensures
        ({
            let after = after_message(runner, message);
            let leaves = message is CloseTooltip || message is BatteryStop;
            &&& !leaves ==> after == runner
            &&& leaves ==> after.tooltip is None
            &&& leaves && runner.tooltip is None ==> after == runner
            &&& after.dbus == runner.dbus && after.theme == runner.theme
            &&& after.focused == runner.focused && after.callbacks == runner.callbacks
            &&& after.workspaces == runner.workspaces && after.urgent == runner.urgent
            &&& after.workspace_focused == runner.workspace_focused && after.window == runner.window
            &&& after.tray == runner.tray && after.battery == runner.battery
            &&& after.backlight == runner.backlight && after.volume == runner.volume
            &&& after.clock == runner.clock && after.icons == runner.icons
        }),
{
}

/// No icon is both a backlight's and a battery's.
proof fn lemma_names_differ(percentage: u32, battery: BatteryView)
    ensures
        backlight_icon(percentage) != battery_icon(battery),
{
    reveal_strlit("display-brightness-low-symbolic");
    reveal_strlit("display-brightness-medium-symbolic");
    reveal_strlit("display-brightness-high-symbolic");
    reveal_strlit("battery-level-100-charged-symbolic");
    reveal_strlit("battery-level-");
    assert(backlight_icon(percentage)[0] == 'd');
    assert(battery_icon(battery)[0] == 'b');
}

/// At first there is the bar's window, no tooltip, no focus, no workspace and no tray item;
/// nothing is known of the active window and of the sound, and of battery and backlight what was
/// read, with the icons that were loaded for them.
pub proof fn law_initial(
    bar: Window,
    dbus: bool,
    clock: crate::clock::ClockView,
    battery: Option<BatteryReading>,
    battery_loaded: Option<Handle>,
    backlight: Option<u32>,
    backlight_loaded: Option<Handle>,
    idx: int,
)
    ensures
        ({
            let runner = initial(
                bar,
                dbus,
                clock,
                battery,
                battery_loaded,
                backlight,
                backlight_loaded,
            );
            &&& runner.windows == seq![bar] && runner.focused is None && runner.tooltip is None
            &&& runner.theme == dark() && runner.callbacks == Map::<u32, u64>::empty()
            &&& runner.tray == Map::<Seq<char>, TrayItem>::empty()
            &&& runner.dbus == dbus && runner.clock == clock
            &&& !runner.workspaces.contains(idx) && !runner.urgent.contains(idx)
            &&& runner.workspace_focused == usize::MAX
            &&& runner.window.class.len() == 0 && runner.window.title.len() == 0
            &&& runner.window.icon is None
            &&& runner.volume.mute is None && runner.volume.value is None && runner.volume.icon is None
            &&& runner.volume.display.len() == 0 && runner.volume.route.len() == 0
            &&& battery is None ==> runner.battery is None
            &&& battery matches Some(reading) ==> (runner.battery matches Some(b) && b.status
                == reading.status && b.capacity == reading.capacity && b.charging is None && b.icon
                == battery_loaded)
            &&& backlight is None ==> runner.backlight is None
            &&& backlight matches Some(percentage) ==> (runner.backlight matches Some(b) && b.percentage
                == percentage && b.icon == backlight_loaded)
            &&& battery matches Some(reading) ==> kept(
                runner.icons,
                battery_icon(runner.battery.unwrap()),
            ) == Some(battery_loaded)
            &&& backlight matches Some(percentage) ==> kept(runner.icons, backlight_icon(percentage)) == Some(
                backlight_loaded,
            )
        }),
{
    let runner = initial(bar, dbus, clock, battery, battery_loaded, backlight, backlight_loaded);
    reveal_with_fuel(position, 3);
    if battery is Some && backlight is Some {
        let (one, two) = (backlight_icon(backlight.unwrap()), battery_icon(runner.battery.unwrap()));
        lemma_names_differ(backlight.unwrap(), runner.battery.unwrap());
        let entries = runner.icons;
        assert(entries.len() == 2 && entries[0].0 == one && entries[1].0 == two);
        assert(entries.drop_first()[0] == entries[1]);
    }
}

/// What the compositor tells of a window is done to that window, with what it told; and is
/// passed over where there is no such window.
pub proof fn law_surface_events(
    runner: RunnerView,
    object: u64,
    width: u32,
    height: u32,
    factor: i32,
    serial: u32,
    event: MouseEvent,
)
    ensures
        found(runner.windows, object) is None ==> {
            &&& surface_actions(runner, SurfaceEvent::Resize { object, width, height }) is None
            &&& surface_actions(runner, SurfaceEvent::Rescale { surface: object, factor }) is None
            &&& surface_actions(runner, SurfaceEvent::Enter { surface: object, serial }) is None
        },
        found(runner.windows, object) matches Some(w) ==> {
            &&& surface_actions(runner, SurfaceEvent::Resize { object, width, height }) == Some(
                seq![SurfaceAction::Resize { window: w.surface, width, height }],
            )
            &&& surface_actions(runner, SurfaceEvent::Rescale { surface: object, factor }) == Some(
                seq![SurfaceAction::Rescale { window: w.surface, factor }],
            )
            &&& surface_actions(runner, SurfaceEvent::Enter { surface: object, serial }) matches Some(
                list,
            ) && list.len() == 3 && list[0] == (SurfaceAction::Mouse {
                window: w.surface,
                event: MouseEvent::CursorEntered,
            }) && list[1] == (SurfaceAction::Enter { window: w.surface, serial }) && list[2]
                == SurfaceAction::Focus(object)
        },
        focused_window(runner.windows, runner.focused) is None ==> surface_actions(
            runner,
            SurfaceEvent::Mouse(event),
        ) is None,
        focused_window(runner.windows, runner.focused) matches Some(w) ==> (surface_actions(
            runner,
            SurfaceEvent::Mouse(event),
        ) matches Some(list) && list[0] == (SurfaceAction::Mouse { window: w.surface, event })
            && list.len() == (if event is CursorLeft {
            2nat
        } else {
            1nat
        }) && (event is CursorLeft ==> list[1] == SurfaceAction::Unfocus)),
        after_surface_event(runner, SurfaceEvent::Mouse(event)) == runner,
        after_surface_event(runner, SurfaceEvent::Resize { object, width, height }) == runner,
        after_surface_event(runner, SurfaceEvent::Rescale { surface: object, factor }) == runner,
        after_surface_event(runner, SurfaceEvent::Enter { surface: object, serial }) == runner,
{
}

/// A callback that has come is no longer waited for; the other ones are as before, and so is
/// everything else.
pub proof fn law_callbacks(runner: RunnerView, callback: u32, other: u32)
    requires
        other != callback,
    ensures
        ({
            let after = after_surface_event(runner, SurfaceEvent::CallbackDone(callback));
            &&& !after.callbacks.contains_key(callback)
            &&& after.callbacks.contains_key(other) == runner.callbacks.contains_key(other)
            &&& runner.callbacks.contains_key(other) ==> after.callbacks[other] == runner.callbacks[other]
            &&& (RunnerView { callbacks: runner.callbacks, ..after }) == runner
        }),
{
}

/// A popup that was opened is the tooltip's window, with the objects and the size it was opened
/// with, behind the others; where none was, nothing changes.
pub proof fn law_opened_popups(runner: RunnerView, content: ContentView, popup: Popup)
    ensures
        after_popup(runner, content, None) == runner,
        ({
            let after = after_popup(runner, content, Some(popup));
            let window = after.windows.last();
            &&& after.tooltip == Some(TooltipView { content, window: popup.surface })
            &&& after.windows.len() == runner.windows.len() + 1
            &&& after.windows.drop_last() == runner.windows
            &&& window.surface == popup.surface && window.tag == Tag::Tooltip
            &&& window.role == (Role::Popup {
                xdg_surface: popup.xdg_surface,
                popup: popup.popup,
                positioner: popup.positioner,
                size: popup.size,
            })
            &&& after.focused == runner.focused && after.icons == runner.icons
            &&& after.workspaces == runner.workspaces && after.urgent == runner.urgent
            &&& after.tray == runner.tray && after.battery == runner.battery
            &&& after.volume == runner.volume && after.backlight == runner.backlight
        }),
{
    assert(after_popup(runner, content, Some(popup)).windows.drop_last() =~= runner.windows);
}

/// A popup opens on a layer surface or on another popup's surface, as its parent is; and not
/// where it would take no room, or all of it.
pub proof fn law_popups_open(role: Role, area: u32)
    ensures
        role matches Role::Layer { layer_surface } ==> attached_to(role) == Attachment::Layer(layer_surface),
        role matches Role::Popup { xdg_surface, .. } ==> attached_to(role) == Attachment::Popup(xdg_surface),
        openable(area) <==> area != 0 && area != 0x8000_0000 && area != 0x7f80_0000,
{
}

/// A popup that can be opened is opened where and as large as it was asked for.
pub proof fn law_popups_open_as_asked(parent: Window, place: Placement, size: Extent, area: u32)
    ensures
        planned(parent, place, size, area) is None <==> area == 0 || area == 0x8000_0000 || area == 0x7f80_0000,
        planned(parent, place, size, area) matches Some(plan) ==> plan.place == place && plan.size == size
            && plan.attachment == attached_to(parent.role),
{
}

/// Once the battery was read it is polled, whether or not what was read can be shown.
pub proof fn law_read_batteries_are_polled(runner: RunnerView, text: Seq<char>, cursor: Option<u32>)
    ensures
        after_battery_read(runner, text, cursor) == opening(
            runner,
            cursor,
            ContentView { token: TokenView::Battery, text },
        ).push(ActionView::WatchBattery),
{
}

/// What a tray item says is shown under its name, and nothing where it says nothing.
pub proof fn law_read_tray_items_are_shown(
    runner: RunnerView,
    service: Seq<char>,
    text: Seq<char>,
    cursor: Option<u32>,
)
    ensures
        after_tray_read(runner, service, None, cursor).len() == 0,
        after_tray_read(runner, service, Some(text), cursor) == opening(
            runner,
            cursor,
            ContentView { token: TokenView::Tray(service), text },
        ),
{
}

/// Once the brightness was read the windows are brought up to date, with the tooltip exactly
/// where that is about the backlight. The icon that is looked for before is the one that is shown.
pub proof fn law_read_brightness_is_shown(runner: RunnerView, percentage: u32, loaded: Option<Handle>)
    ensures
        after_backlight_read(runner, percentage).len() == 1,
        after_backlight_read(runner, percentage)[0] == (ActionView::Refresh {
            update_tooltip: runner.tooltip is Some && runner.tooltip.unwrap().content.token is Backlight,
        }),
        match wanted_by_backlight(runner, percentage) {
            Some(r) => kept(runner.icons, r.key) is None && r.key == backlight_icon(percentage) && r.size == 64
                && r.symbolic && after_backlight(runner, percentage, loaded).backlight.unwrap().icon == loaded,
            None => after_backlight(runner, percentage, loaded) == after_backlight(runner, percentage, None),
        },
{
}

/// What is looked for at first is what news of the same would have looked for, were nothing kept.
pub proof fn law_first_icons(runner: RunnerView, reading: BatteryReading, event: BatteryEvent, percentage: u32)
    requires
        runner.icons.len() == 0,
        runner.battery matches Some(b) && with_event(b, event) != b && with_event(b, event).charging is None
            && with_event(b, event).status == reading.status && with_event(b, event).capacity
            == reading.capacity,
    ensures
        wanted_by(runner, AppEvent::Battery(event)) == Some(wanted_by_battery(reading)),
        wanted_by_backlight(runner, percentage) == Some(wanted_at_first(percentage)),
{
}

/// The bar lies along the whole upper edge, and keeps as much of the screen free as it is high.
pub proof fn law_bar_lies_on_top(height: u32)
    requires
        height <= i32::MAX,
    ensures
        along_the_top(height).height == height,
        along_the_top(height).exclusive_zone == height,
        along_the_top(height).width == 0,
        along_the_top(height).top && along_the_top(height).left && along_the_top(height).right,
        !along_the_top(height).bottom,
{
}

/// Closing the tooltip closes its window, and there is nothing to close without one.
pub proof fn law_closing(runner: RunnerView)
    ensures
        runner.tooltip is None ==> closing(runner).len() == 0 && closed(runner) == runner,
        runner.tooltip matches Some(t) ==> closing(runner) == seq![ActionView::ClosePopup(t.window)]
            && closed(runner).tooltip is None && closed(runner).windows == crate::windows::without(
            runner.windows,
            t.window,
        ),
{
}

} // verus!
