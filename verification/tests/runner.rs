use arrayvec::ArrayVec;
use hyoka::battery::BatteryEvent;
use hyoka::charging::ChargingStatus;
use hyoka::clock::ClockFace;
use hyoka::events::{AppEvent, Polled};
use hyoka::hyprland::{Command, Event, HyprlandReqToken, HyprlandRequest, Query};
use hyoka::icons::Handle;
use hyoka::pipewire;
use hyoka::runner::bar::{logo_color, Content, Label};
use hyoka::runner::start::{backlight_request, battery_request, BatteryReading};
use hyoka::runner::surfaces::{
    popup, Attachment, MouseEvent, Popup, SurfaceAction, SurfaceEvent,
};
use hyoka::runner::{bar_surface, Action, Message, Runner, BAR_HEIGHT};
use hyoka::theme::{theme, Rgb};
use hyoka::tooltip::{below, Extent, Shaping, TooltipContent, TooltipToken};
use hyoka::tray::TrayEvent;
use hyoka::windows::{Role, Tag, Window, WindowAction};

const SIZE: Extent = Extent { width: 0x4120_0000, height: 0x4120_0000 };

fn clock(date: &str, time: &[u8; 8], weekday: &'static str) -> ClockFace {
    let mut bytes = ArrayVec::new();
    for b in date.as_bytes() {
        bytes.push(*b);
    }
    ClockFace { date: bytes, time: *time, weekday }
}

fn plain() -> Runner {
    Runner::new(1, 2, true, clock("Nov 15", b"12:34:56", "Sun"), None, None, None, None)
}

fn rich() -> Runner {
    Runner::new(
        1,
        2,
        true,
        clock("Nov 15", b"12:34:56", "Sun"),
        Some(BatteryReading { status: ChargingStatus::Discharging, capacity: 50 }),
        Some(Handle::Svg(10)),
        Some(40),
        Some(Handle::Svg(11)),
    )
}

fn bar_window() -> Window {
    Window { surface: 1, role: Role::Layer { layer_surface: 2 }, tag: Tag::Bar }
}

fn refresh(update_tooltip: bool) -> Action {
    Action::Refresh { update_tooltip }
}

fn opened(runner: &mut Runner, content: TooltipContent) {
    runner.popup_opened(
        content,
        Some(Popup { surface: 3, xdg_surface: 4, popup: 5, positioner: 6, size: SIZE }),
    );
}

fn tooltip_text(runner: &Runner) -> Option<String> {
    match runner.view(Tag::Tooltip) {
        Content::Tooltip(text) => Some(text.text.to_string()),
        Content::Empty => None,
        Content::Bar(_) => panic!("no tooltip"),
    }
}

fn content(token: TooltipToken, text: &str) -> TooltipContent {
    TooltipContent { token, text: text.to_string() }
}

#[test]
fn the_bar_lies_along_the_upper_edge() {
    let surface = bar_surface();
    assert_eq!((surface.width, surface.height, surface.exclusive_zone), (0, BAR_HEIGHT, 35));
    assert!(surface.top && surface.left && surface.right && !surface.bottom);
}

#[test]
fn the_first_icons_are_asked_for() {
    let request = battery_request(BatteryReading { status: ChargingStatus::Charging, capacity: 99 });
    assert_eq!(request.key, "battery-level-100-charged-symbolic");
    assert_eq!((request.size, request.symbolic), (64, true));
    assert_eq!(backlight_request(10).key, "display-brightness-low-symbolic");
}

#[test]
fn widgets_send_requests() {
    let mut runner = plain();
    assert_eq!(runner.update(Message::Hello, Some(5)), vec![]);
    assert_eq!(
        runner.update(Message::Workspace { id: 4 }, None),
        vec![Action::Request(HyprlandRequest::Command(Command::Workspace(4)))]
    );
    assert_eq!(
        runner.update(Message::WindowInfo, None),
        vec![Action::Request(HyprlandRequest::Query {
            query: Query::ActiveWindow,
            token: HyprlandReqToken::ActiveWindow,
        })]
    );
}

#[test]
fn the_tray_is_asked_where_it_can_be() {
    let mut runner = plain();
    assert_eq!(
        runner.update(Message::TrayTooltip("s".to_string()), None),
        vec![Action::ReadTray("s".to_string())]
    );
    assert_eq!(
        runner.update(Message::TrayAction("s".to_string()), None),
        vec![Action::ActivateTray("s".to_string())]
    );
    let mut runner =
        Runner::new(1, 2, false, clock("", b"12:34:56", ""), None, None, None, None);
    assert_eq!(runner.update(Message::TrayTooltip("s".to_string()), None), vec![]);
    assert_eq!(runner.update(Message::TrayAction("s".to_string()), None), vec![]);
}

#[test]
fn a_tooltip_needs_a_window_and_a_place() {
    let mut runner = rich();
    assert_eq!(runner.update(Message::Backlight, Some(7)), vec![]);
    runner.focus(Some(1));
    assert_eq!(runner.focused(), Some(bar_window()));
    assert_eq!(runner.update(Message::Backlight, None), vec![]);
    let wanted = vec![Action::OpenPopup {
        parent: bar_window(),
        place: below(7, 36),
        content: content(TooltipToken::Backlight, "40"),
    }];
    assert_eq!(runner.update(Message::Backlight, Some(7)), wanted);
    opened(&mut runner, content(TooltipToken::Backlight, "40"));
    assert!(runner.has_tooltip());
    assert!(runner.knows(3) && !runner.knows(4));
    assert_eq!(tooltip_text(&runner), Some("40".to_string()));
    assert_eq!(runner.update(Message::Backlight, Some(7)), vec![]);
    assert_eq!(runner.update(Message::CloseTooltip, None), vec![Action::ClosePopup(3)]);
    assert_eq!(runner.update(Message::CloseTooltip, None), vec![]);
    assert!(!runner.has_tooltip() && !runner.knows(3));
    assert_eq!(runner.update(Message::Backlight, Some(7)), wanted);
}

#[test]
fn a_tooltip_is_refused_or_has_no_place() {
    let mut runner = rich();
    let text = || content(TooltipToken::Volume, "50");
    assert_eq!(runner.set_tooltip(text(), Some(7)), None);
    runner.focus(Some(1));
    assert_eq!(runner.set_tooltip(text(), None), Some(vec![]));
    assert_eq!(runner.set_tooltip(text(), Some(7)).map(|x| x.len()), Some(1));
    opened(&mut runner, text());
    assert_eq!(runner.set_tooltip(text(), Some(7)), None);
    assert_eq!(runner.set_tooltip(text(), None), None);
    assert_eq!(tooltip_text(&runner), Some("50".to_string()));
}

#[test]
fn events_are_admitted() {
    let runner = plain();
    let hypr = |event| AppEvent::Hyprland(event);
    for (id, good) in [(0, false), (1, true), (16, true), (17, false)] {
        assert_eq!(runner.admits(&AppEvent::Urgent(id)), good);
        assert_eq!(runner.admits(&hypr(Event::Workspace { id })), good);
        assert_eq!(runner.admits(&hypr(Event::CreateWorkspace { id })), good);
        assert_eq!(runner.admits(&hypr(Event::DestroyWorkspace { id })), good);
    }
    assert!(!runner.admits(&AppEvent::Backlight));
    assert!(rich().admits(&AppEvent::Backlight));
    let face = |time| AppEvent::Polling(Polled::Clock(clock("Nov 15", time, "Sun")));
    assert!(runner.admits(&face(b"12:34:56")));
    assert!(!runner.admits(&face(b"12:34:5\xff")));
    assert!(runner.admits(&AppEvent::WindowInfo(String::new())));
}

#[test]
fn a_popup_may_not_open() {
    let mut runner = rich();
    runner.popup_opened(content(TooltipToken::Battery, "x"), None);
    assert!(!runner.has_tooltip());
    assert_eq!(tooltip_text(&runner), None);
    let window = bar_window();
    let plan = popup(&window, below(1, 2), SIZE, 100.0f32.to_bits()).unwrap();
    assert_eq!(plan.attachment, Attachment::Layer(2));
    assert_eq!((plan.place, plan.size), (below(1, 2), SIZE));
    assert_eq!(
        plan.opened(3, 4, 5, 6),
        Popup { surface: 3, xdg_surface: 4, popup: 5, positioner: 6, size: SIZE }
    );
    assert!(popup(&window, below(1, 2), SIZE, 0).is_none());
    assert!(popup(&window, below(1, 2), SIZE, (-0.0f32).to_bits()).is_none());
    assert!(popup(&window, below(1, 2), SIZE, f32::INFINITY.to_bits()).is_none());
    assert!(popup(&window, below(1, 2), SIZE, f32::NAN.to_bits()).is_some());
    let parent = Window {
        surface: 3,
        role: Role::Popup { xdg_surface: 4, popup: 5, positioner: 6, size: SIZE },
        tag: Tag::Tooltip,
    };
    let plan = popup(&parent, below(1, 2), SIZE, 1.0f32.to_bits()).unwrap();
    assert_eq!(plan.attachment, Attachment::Popup(4));
}

#[test]
fn the_battery_is_read_and_watched() {
    let mut runner = plain();
    assert_eq!(runner.update(Message::Battery, Some(7)), vec![]);
    assert_eq!(runner.update(Message::Backlight, Some(7)), vec![]);
    let mut runner = rich();
    runner.focus(Some(1));
    assert_eq!(runner.update(Message::Battery, Some(7)), vec![Action::ReadBattery]);
    assert_eq!(
        runner.battery_read("5 W".to_string(), Some(7)),
        vec![
            Action::OpenPopup {
                parent: bar_window(),
                place: below(7, 36),
                content: content(TooltipToken::Battery, "5 W"),
            },
            Action::WatchBattery,
        ]
    );
    assert_eq!(runner.battery_read("5 W".to_string(), None), vec![Action::WatchBattery]);
    opened(&mut runner, content(TooltipToken::Battery, "5 W"));
    assert_eq!(
        runner.update(Message::BatteryStop, None),
        vec![Action::ClosePopup(3), Action::StopBattery]
    );
    assert_eq!(runner.update(Message::BatteryStop, None), vec![Action::StopBattery]);
}

#[test]
fn a_tray_item_may_have_no_description() {
    let mut runner = plain();
    runner.focus(Some(1));
    assert_eq!(runner.tray_read("s".to_string(), None, Some(7)), vec![]);
    assert_eq!(
        runner.tray_read("s".to_string(), Some("t".to_string()), Some(7)),
        vec![Action::OpenPopup {
            parent: bar_window(),
            place: below(7, 36),
            content: content(TooltipToken::Tray("s".to_string()), "t"),
        }]
    );
}

fn hypr(runner: &mut Runner, event: Event) -> Vec<Action> {
    runner.dispatch_app_event(AppEvent::Hyprland(event), None, None)
}

#[test]
fn workspaces_are_followed() {
    let mut runner = plain();
    assert!(!runner.workspace_item(2).focused);
    assert_eq!(runner.workspace_item(2).label, Label::Dot);
    assert_eq!(hypr(&mut runner, Event::CreateWorkspace { id: 3 }), vec![refresh(false)]);
    assert_eq!(
        runner.workspace_item(2).label,
        Label::Digit { digit: 3, shaping: Shaping::Auto }
    );
    runner.dispatch_app_event(AppEvent::Urgent(3), None, None);
    assert!(runner.workspace_item(2).urgent);
    hypr(&mut runner, Event::Workspace { id: 3 });
    let item = runner.workspace_item(2);
    assert!(item.focused && !item.urgent);
    assert_eq!(item.label, Label::Digit { digit: 3, shaping: Shaping::Basic });
    hypr(&mut runner, Event::Workspace { id: 10 });
    assert_eq!(
        runner.workspace_item(9).label,
        Label::Digit { digit: 0, shaping: Shaping::Basic }
    );
    assert_eq!(runner.workspace_item(9).id, 10);
    runner.dispatch_app_event(AppEvent::Urgent(3), None, None);
    hypr(&mut runner, Event::DestroyWorkspace { id: 3 });
    let item = runner.workspace_item(2);
    assert!(!item.urgent);
    assert_eq!(item.label, Label::Dot);
    hypr(&mut runner, Event::Workspace { id: 16 });
    assert_eq!(runner.workspace().len(), 10);
}

#[test]
fn the_last_event_decides_on_a_workspace() {
    let mut runner = plain();
    hypr(&mut runner, Event::CreateWorkspace { id: 5 });
    hypr(&mut runner, Event::DestroyWorkspace { id: 5 });
    hypr(&mut runner, Event::CreateWorkspace { id: 5 });
    hypr(&mut runner, Event::DestroyWorkspace { id: 6 });
    runner.dispatch_app_event(AppEvent::Urgent(5), None, None);
    hypr(&mut runner, Event::Workspace { id: 5 });
    hypr(&mut runner, Event::Workspace { id: 7 });
    runner.update(Message::CloseTooltip, None);
    let item = runner.workspace_item(4);
    assert!(!item.urgent && item.label != Label::Dot);
    runner.dispatch_app_event(AppEvent::Urgent(5), None, None);
    hypr(&mut runner, Event::Workspace { id: 6 });
    assert!(runner.workspace_item(4).urgent);
}

#[test]
fn buttons_have_colours() {
    let mut runner = plain();
    let palette = theme();
    let plain_item = runner.workspace_item(0);
    runner.dispatch_app_event(AppEvent::Urgent(1), None, None);
    let urgent = runner.workspace_item(0);
    hypr(&mut runner, Event::Workspace { id: 1 });
    let focused = runner.workspace_item(0);
    let style = plain_item.style(&palette, false);
    assert_eq!((style.background, style.text, style.shadow), (None, palette.text, None));
    let style = plain_item.style(&palette, true);
    assert_eq!((style.background, style.text), (None, palette.primary));
    assert_eq!(style.shadow, Some(palette.primary.with_alpha(34)));
    let style = urgent.style(&palette, false);
    assert_eq!((style.background, style.text), (Some(palette.danger), palette.background.rgb));
    assert_eq!(urgent.style(&palette, true).background, None);
    let style = focused.style(&palette, false);
    assert_eq!((style.background, style.text), (Some(palette.text), palette.background.rgb));
    let style = focused.style(&palette, true);
    assert_eq!(style.background, Some(palette.primary));
    assert_eq!(style.shadow, Some(palette.primary.with_alpha(55)));
    assert_eq!(logo_color(&palette, true), palette.primary);
    assert_eq!(logo_color(&palette, false), palette.text);
}

#[test]
fn the_active_window_is_shown() {
    let mut runner = plain();
    let event = || {
        AppEvent::Hyprland(Event::ActiveWindow {
            class: "org.example.browser".to_string(),
            title: "short".to_string(),
        })
    };
    let request = runner.wanted_icon(&event()).unwrap();
    assert_eq!(request.key, "org.example.browser");
    assert_eq!((request.size, request.symbolic), (64, false));
    assert_eq!(
        runner.dispatch_app_event(event(), None, Some(Handle::Pixmap(8))),
        vec![refresh(false)]
    );
    let title = runner.title();
    assert_eq!(title.class, "org.example.…");
    assert_eq!(title.title, "short");
    assert_eq!(title.icon.unwrap().handle, Handle::Pixmap(8));
    assert_eq!(title.on_enter, Message::WindowInfo);
    assert_eq!(title.on_exit, Message::CloseTooltip);
    assert!(runner.wanted_icon(&event()).is_none());
    runner.dispatch_app_event(event(), None, None);
    assert_eq!(runner.title().icon.unwrap().handle, Handle::Pixmap(8));
    let event = || {
        AppEvent::Hyprland(Event::ActiveWindow { class: String::new(), title: String::new() })
    };
    assert!(runner.wanted_icon(&event()).is_none());
    runner.dispatch_app_event(event(), None, Some(Handle::Pixmap(9)));
    assert!(runner.title().icon.is_none());
    assert_eq!(runner.title().class, "");
}

#[test]
fn an_urgent_window_is_looked_up() {
    let mut runner = plain();
    assert_eq!(
        hypr(&mut runner, Event::Urgent { win: "55d0".to_string() }),
        vec![
            Action::Request(HyprlandRequest::Query {
                query: Query::Clients,
                token: HyprlandReqToken::Urgent { win: "55d0".to_string() },
            }),
            refresh(false),
        ]
    );
}

#[test]
fn the_active_window_is_described_without_tabs() {
    let mut runner = plain();
    runner.focus(Some(1));
    assert_eq!(
        runner.dispatch_app_event(AppEvent::WindowInfo("a:\n\tb\n".to_string()), Some(3), None),
        vec![
            Action::OpenPopup {
                parent: bar_window(),
                place: below(3, 36),
                content: content(TooltipToken::WindowInfo, "a:\n        b\n"),
            },
            refresh(false),
        ]
    );
    assert_eq!(
        runner.dispatch_app_event(AppEvent::WindowInfo("a".to_string()), None, None),
        vec![refresh(false)]
    );
}

#[test]
fn the_batterys_icon_follows_it() {
    let mut runner = rich();
    assert_eq!(runner.battery().unwrap().icon.handle, Handle::Svg(10));
    let event = || AppEvent::Battery(BatteryEvent::Capacity(45));
    assert_eq!(runner.wanted_icon(&event()).unwrap().key, "battery-level-40-symbolic");
    runner.dispatch_app_event(event(), None, Some(Handle::Svg(20)));
    assert_eq!(runner.battery().unwrap().icon.handle, Handle::Svg(20));
    assert!(runner.wanted_icon(&event()).is_none());
    runner.dispatch_app_event(event(), None, Some(Handle::Svg(21)));
    assert_eq!(runner.battery().unwrap().icon.handle, Handle::Svg(20));
    let event = || AppEvent::Battery(BatteryEvent::PowerOnline);
    assert_eq!(
        runner.wanted_icon(&event()).unwrap().key,
        "battery-level-40-charging-symbolic"
    );
    runner.dispatch_app_event(event(), None, None);
    assert!(runner.battery().is_none());
    let mut runner = plain();
    assert!(runner.wanted_icon(&event()).is_none());
    assert_eq!(runner.dispatch_app_event(event(), None, None), vec![refresh(false)]);
}

#[test]
fn the_brightness_is_read_again() {
    let mut runner = rich();
    assert_eq!(
        runner.dispatch_app_event(AppEvent::Backlight, None, None),
        vec![Action::ReadBacklight]
    );
    assert!(runner.wanted_backlight_icon(50).is_none());
    assert_eq!(
        runner.wanted_backlight_icon(90).unwrap().key,
        "display-brightness-high-symbolic"
    );
    assert_eq!(runner.backlight_read(90, Some(Handle::Svg(30))), vec![refresh(false)]);
    assert_eq!(runner.backlight().unwrap().icon.handle, Handle::Svg(30));
    opened(&mut runner, content(TooltipToken::Backlight, "90"));
    assert_eq!(runner.backlight_read(91, None), vec![refresh(true)]);
    assert_eq!(tooltip_text(&runner), Some("91".to_string()));
    assert_eq!(
        runner.dispatch_app_event(AppEvent::Polling(Polled::Battery("x".to_string())), None, None),
        vec![refresh(false)]
    );
    assert_eq!(tooltip_text(&runner), Some("91".to_string()));
}

#[test]
fn a_polled_battery_is_told_in_its_tooltip() {
    let mut runner = rich();
    let event = |s: &str| AppEvent::Polling(Polled::Battery(s.to_string()));
    assert_eq!(runner.dispatch_app_event(event("5 W"), None, None), vec![refresh(false)]);
    assert_eq!(tooltip_text(&runner), None);
    opened(&mut runner, content(TooltipToken::Battery, "5 W"));
    assert_eq!(runner.dispatch_app_event(event("6 W"), None, None), vec![refresh(true)]);
    assert_eq!(tooltip_text(&runner), Some("6 W".to_string()));
    assert_eq!(
        runner.refresh(true),
        vec![
            WindowAction::Outdate(1),
            WindowAction::Redraw(1),
            WindowAction::Outdate(3),
            WindowAction::Remeasure(3),
            WindowAction::Redraw(3),
        ]
    );
    let larger = Extent { width: 0x4130_0000, height: SIZE.height };
    assert!(runner.popup_measured(3, larger));
    assert!(!runner.popup_measured(3, larger));
}

fn sound(runner: &mut Runner, event: pipewire::Event, loaded: Option<Handle>) -> Vec<Action> {
    runner.dispatch_app_event(AppEvent::Pipewire(event), None, loaded)
}

fn level(value: f32) -> pipewire::Event {
    pipewire::Event::Volume(pipewire::Level {
        bits: value.to_bits(),
        percent: format!("{:.0}", value * 100.0),
    })
}

#[test]
fn the_volume_is_followed() {
    let mut runner = plain();
    runner.focus(Some(1));
    assert!(runner.volume().is_none());
    assert_eq!(runner.update(Message::Volume, Some(1)), vec![]);
    assert_eq!(sound(&mut runner, level(0.5), Some(Handle::Svg(40))), vec![refresh(false)]);
    assert!(runner.volume().is_none());
    let event = AppEvent::Pipewire(pipewire::Event::Mute(false));
    let request = runner.wanted_icon(&event).unwrap();
    assert_eq!(request.key, "audio-volume-medium-symbolic");
    assert_eq!((request.size, request.symbolic), (16, true));
    runner.dispatch_app_event(event, None, Some(Handle::Svg(41)));
    let area = runner.volume().unwrap();
    assert_eq!(area.icon.handle, Handle::Svg(41));
    assert_eq!((area.on_enter, area.on_exit), (Message::Volume, Message::CloseTooltip));
    assert_eq!(
        runner.update(Message::Volume, Some(1)),
        vec![Action::OpenPopup {
            parent: bar_window(),
            place: below(1, 36),
            content: content(TooltipToken::Volume, "50"),
        }]
    );
    opened(&mut runner, content(TooltipToken::Volume, "50"));
    assert_eq!(sound(&mut runner, level(0.75), None), vec![refresh(true)]);
    assert_eq!(tooltip_text(&runner), Some("75".to_string()));
    assert_eq!(
        sound(&mut runner, pipewire::Event::Mute(true), None),
        vec![refresh(true)]
    );
    assert_eq!(tooltip_text(&runner), Some("Muted".to_string()));
    let event = pipewire::Event::DefaultChanged {
        display: "d".to_string(),
        route: "Headphones".to_string(),
    };
    assert_eq!(sound(&mut runner, event, Some(Handle::Svg(42))), vec![refresh(true)]);
    assert_eq!(runner.volume().unwrap().icon.handle, Handle::Svg(42));
}

fn tray(runner: &mut Runner, event: TrayEvent, loaded: Option<Handle>) -> Vec<Action> {
    runner.dispatch_app_event(AppEvent::Tray(event), None, loaded)
}

#[test]
fn the_tray_is_followed() {
    let mut runner = plain();
    let registered = || TrayEvent::Registered {
        service: "s".to_string(),
        icon_name: "i".to_string(),
    };
    let request = runner.wanted_icon(&AppEvent::Tray(registered())).unwrap();
    assert_eq!(request.key, "i");
    assert_eq!(tray(&mut runner, registered(), Some(Handle::Svg(1))), vec![refresh(false)]);
    let shown = runner.tray();
    assert_eq!(shown.len(), 1);
    assert_eq!(shown[0].icon.handle, Handle::Svg(1));
    assert_eq!(shown[0].icon.width, 220);
    assert_eq!(shown[0].on_enter, Message::TrayTooltip("s".to_string()));
    assert_eq!(shown[0].on_exit, Message::CloseTooltip);
    assert_eq!(shown[0].on_press, Some(Message::TrayAction("s".to_string())));
    let icon = |service: &str, icon_name: &str| TrayEvent::NewIcon {
        service: service.to_string(),
        icon_name: icon_name.to_string(),
    };
    tray(&mut runner, icon("s", "j"), Some(Handle::Svg(2)));
    assert_eq!(runner.tray()[0].icon.handle, Handle::Svg(2));
    tray(&mut runner, icon("t", "k"), Some(Handle::Svg(3)));
    assert_eq!(runner.tray().len(), 1);
    assert!(runner.wanted_icon(&AppEvent::Tray(icon("s", "k"))).is_none());
    tray(&mut runner, TrayEvent::Unregistered("s".to_string()), None);
    assert!(runner.tray().is_empty());
    tray(&mut runner, registered(), None);
    assert_eq!(runner.tray()[0].icon.handle, Handle::Svg(1));
    tray(&mut runner, TrayEvent::Disconnected, None);
    assert!(runner.tray().is_empty());
}

#[test]
fn windows_are_told_of() {
    let mut runner = plain();
    assert_eq!(
        runner.dispatch_wayland_event(SurfaceEvent::Resize { object: 2, width: 9, height: 35 }),
        Some(vec![SurfaceAction::Resize { window: 1, width: 9, height: 35 }])
    );
    assert_eq!(
        runner.dispatch_wayland_event(SurfaceEvent::Resize { object: 7, width: 9, height: 35 }),
        None
    );
    assert_eq!(
        runner.dispatch_wayland_event(SurfaceEvent::Rescale { surface: 1, factor: 2 }),
        Some(vec![SurfaceAction::Rescale { window: 1, factor: 2 }])
    );
    assert_eq!(
        runner.dispatch_wayland_event(SurfaceEvent::Rescale { surface: 7, factor: 2 }),
        None
    );
    assert_eq!(
        runner.dispatch_wayland_event(SurfaceEvent::Enter { surface: 7, serial: 5 }),
        None
    );
    assert_eq!(
        runner.dispatch_wayland_event(SurfaceEvent::Enter { surface: 1, serial: 5 }),
        Some(vec![
            SurfaceAction::Mouse { window: 1, event: MouseEvent::CursorEntered },
            SurfaceAction::Enter { window: 1, serial: 5 },
            SurfaceAction::Focus(1),
        ])
    );
    let mouse = SurfaceEvent::Mouse(MouseEvent::Other);
    assert_eq!(runner.dispatch_wayland_event(mouse), None);
    runner.focus(Some(1));
    assert_eq!(
        runner.dispatch_wayland_event(mouse),
        Some(vec![SurfaceAction::Mouse { window: 1, event: MouseEvent::Other }])
    );
    assert_eq!(
        runner.dispatch_wayland_event(SurfaceEvent::Mouse(MouseEvent::CursorLeft)),
        Some(vec![
            SurfaceAction::Mouse { window: 1, event: MouseEvent::CursorLeft },
            SurfaceAction::Unfocus,
        ])
    );
    runner.focus(None);
    assert_eq!(runner.focused(), None);
    assert!(!runner.awaits(77));
    runner.await_callback(77, 1);
    runner.await_callback(78, 3);
    assert!(runner.awaits(77));
    assert_eq!(
        runner.dispatch_wayland_event(SurfaceEvent::CallbackDone(77)),
        Some(vec![SurfaceAction::Draw(1)])
    );
    assert!(!runner.awaits(77) && runner.awaits(78));
}

#[test]
fn the_bar_shows_everything() {
    let mut runner = rich();
    runner.dispatch_app_event(
        AppEvent::Polling(Polled::Clock(clock("Nov 16", b"00:00:01", "Mon"))),
        None,
        None,
    );
    match runner.view(Tag::Bar) {
        Content::Bar(bar) => {
            assert_eq!(bar.logo.path, "/usr/share/pixmaps/archlinux-logo.svg");
            assert_eq!(bar.logo.on_press, Message::Hello);
            assert_eq!(bar.workspaces.len(), 10);
            assert_eq!(bar.clock.date, "Nov 16");
            assert_eq!(bar.clock.time, "00:00:01");
            assert_eq!(bar.clock.weekday, "Mon");
            assert!(bar.volume.is_none());
            let area = bar.battery.unwrap();
            assert_eq!(area.icon.width, 175);
            assert_eq!((area.on_enter, area.on_exit), (Message::Battery, Message::BatteryStop));
            let area = bar.backlight.unwrap();
            assert_eq!((area.on_enter, area.on_exit), (Message::Backlight, Message::CloseTooltip));
            assert!(area.on_press.is_none());
        }
        _ => panic!("no bar"),
    }
}

#[test]
fn windows_have_backgrounds() {
    let runner = plain();
    let color = runner.background(Tag::Bar);
    assert_eq!((color.rgb, color.alpha), (Rgb { r: 30, g: 28, b: 34 }, 38));
    let color = runner.background(Tag::Tooltip);
    assert_eq!((color.rgb, color.alpha), (Rgb { r: 0, g: 0, b: 0 }, 0));
}

#[test]
fn messages_are_cloned_whole() {
    let message = Message::TrayTooltip("s".to_string());
    assert_eq!(message.clone(), message);
    assert_eq!(Message::Workspace { id: 3 }.clone(), Message::Workspace { id: 3 });
}
