//! How the state follows what happens around the bar.

use super::{
    actions, opening, or_none, Action, ActionView, Runner, RunnerView, TooltipView, WindowInfo, WindowInfoView,
};
use crate::backlight::{backlight_icon, backlight_tooltip, BacklightStatus};
use crate::battery::{battery_icon, with_event, BatteryEvent, BatteryView};
use crate::bitset::BITS;
use crate::clock::legible;
use crate::events::{AppEvent, Polled};
use crate::hyprland::{HyprlandReqToken, HyprlandRequest, Query, ReqTokenView, RequestView};
use crate::icons::{
    answer, filled, request_view, wanted, Handle, IconRequest, IconRequestView, CAPACITY,
};
use crate::text::{byte_len, char_replaced, replace_char, truncate, truncated};
use crate::tooltip::{ContentView, TokenView, TooltipContent, TooltipToken};
use crate::tray::{TrayEvent, TrayItem};
use crate::volume::{after_icon, volume_icon, volume_tooltip, with_icon, with_news};
use crate::{hyprland, pipewire};
use vstd::prelude::*;
use vstd::string::StrSliceExecFns;

verus! {

/// Whether an event can be taken: workspaces have numbers that fit, there is a backlight where
/// one has changed, and the clock can be read.
pub open spec fn admissible(runner: RunnerView, event: AppEvent) -> bool {
    match event {
        AppEvent::Hyprland(hyprland::Event::Workspace { id }) => 1 <= id <= BITS,
        AppEvent::Hyprland(hyprland::Event::CreateWorkspace { id }) => 1 <= id <= BITS,
        AppEvent::Hyprland(hyprland::Event::DestroyWorkspace { id }) => 1 <= id <= BITS,
        AppEvent::Urgent(id) => 1 <= id <= BITS,
        AppEvent::Polling(Polled::Clock(clock)) => legible(clock@),
        AppEvent::Backlight => runner.backlight is Some,
        _ => true,
    }
}

/// Whether the tooltip is about what `content` is about.
pub open spec fn concerns(tooltip: Option<TooltipView>, content: Option<ContentView>) -> bool {
    match (tooltip, content) {
        (Some(t), Some(c)) => t.content.token == c.token,
        _ => false,
    }
}

/// The tooltip with `content` in place of what it said, if that is about the same.
pub open spec fn retold(tooltip: Option<TooltipView>, content: Option<ContentView>) -> Option<TooltipView> {
    if concerns(tooltip, content) {
        Some(TooltipView { content: content.unwrap(), ..tooltip.unwrap() })
    } else {
        tooltip
    }
}

/// The state with an icon among those kept.
pub open spec fn keeping(runner: RunnerView, key: Seq<char>, loaded: Option<Handle>) -> RunnerView {
    RunnerView { icons: filled(runner.icons, CAPACITY as nat, key, loaded), ..runner }
}

/// The state after the compositor told something.
pub open spec fn after_hyprland(
    runner: RunnerView,
    event: hyprland::Event,
    loaded: Option<Handle>,
) -> RunnerView {
    match event {
        hyprland::Event::Workspace { id } => RunnerView {
            workspace_focused: (id - 1) as usize,
            urgent: runner.urgent.remove(id - 1),
            ..runner
        },
        hyprland::Event::CreateWorkspace { id } => RunnerView {
            workspaces: runner.workspaces.insert(id - 1),
            ..runner
        },
        hyprland::Event::DestroyWorkspace { id } => RunnerView {
            workspaces: runner.workspaces.remove(id - 1),
            urgent: runner.urgent.remove(id - 1),
            ..runner
        },
        hyprland::Event::ActiveWindow { class, title } => {
            let window = WindowInfoView {
                class: truncated(class@, 15, "…"@),
                title: truncated(title@, 50, "…"@),
                icon: if class@.len() == 0 {
                    None
                } else {
                    answer(runner.icons, class@, loaded)
                },
            };
            if class@.len() == 0 {
                RunnerView { window, ..runner }
            } else {
                RunnerView { window, ..keeping(runner, class@, loaded) }
            }
        },
        hyprland::Event::Urgent { .. } => runner,
    }
}

/// The state after news of the battery: its icon follows where anything has changed.
pub open spec fn after_battery(
    runner: RunnerView,
    event: BatteryEvent,
    loaded: Option<Handle>,
) -> RunnerView {
    match runner.battery {
        Some(battery) => {
            let after = with_event(battery, event);
            let key = battery_icon(after);
            if after == battery {
                runner
            } else {
                RunnerView {
                    battery: Some(BatteryView { icon: answer(runner.icons, key, loaded), ..after }),
                    ..keeping(runner, key, loaded)
                }
            }
        },
        None => runner,
    }
}

/// The state after news of the tray.
pub open spec fn after_tray(runner: RunnerView, event: TrayEvent, loaded: Option<Handle>) -> RunnerView {
    match event {
        TrayEvent::Registered { service, icon_name } => RunnerView {
            tray: runner.tray.insert(
                service@,
                TrayItem { icon: answer(runner.icons, icon_name@, loaded) },
            ),
            ..keeping(runner, icon_name@, loaded)
        },
        TrayEvent::NewIcon { service, icon_name } => RunnerView {
            tray: if runner.tray.contains_key(service@) {
                runner.tray.insert(
                    service@,
                    TrayItem { icon: answer(runner.icons, icon_name@, loaded) },
                )
            } else {
                runner.tray
            },
            ..keeping(runner, icon_name@, loaded)
        },
        TrayEvent::Unregistered(service) => RunnerView { tray: runner.tray.remove(service@), ..runner },
        TrayEvent::Disconnected => RunnerView { tray: Map::empty(), ..runner },
    }
}

/// The state after news of the default sink.
pub open spec fn after_sound(
    runner: RunnerView,
    event: pipewire::EventView,
    loaded: Option<Handle>,
) -> RunnerView {
    let volume = with_news(runner.volume, event);
    RunnerView {
        volume: with_icon(volume, runner.icons, loaded),
        icons: after_icon(volume, runner.icons, loaded),
        tooltip: retold(runner.tooltip, volume_tooltip(volume)),
        ..runner
    }
}

/// The state after the brightness was read.
pub open spec fn after_backlight(
    runner: RunnerView,
    percentage: u32,
    loaded: Option<Handle>,
) -> RunnerView {
    let key = backlight_icon(percentage);
    RunnerView {
        backlight: Some(BacklightStatus { percentage, icon: answer(runner.icons, key, loaded) }),
        tooltip: retold(runner.tooltip, Some(backlight_tooltip(percentage))),
        ..keeping(runner, key, loaded)
    }
}

/// What the tooltip of the battery says.
pub open spec fn battery_tooltip(text: Seq<char>) -> ContentView {
    ContentView { token: TokenView::Battery, text }
}

/// The state after an event; `loaded` is the icon that was looked for on its account.
pub open spec fn after_event(runner: RunnerView, event: AppEvent, loaded: Option<Handle>) -> RunnerView {
    match event {
        AppEvent::Hyprland(event) => after_hyprland(runner, event, loaded),
        AppEvent::WindowInfo(_) => runner,
        AppEvent::Urgent(id) => RunnerView { urgent: runner.urgent.insert(id - 1), ..runner },
        AppEvent::Battery(event) => after_battery(runner, event, loaded),
        AppEvent::Polling(Polled::Clock(clock)) => RunnerView { clock: clock@, ..runner },
        AppEvent::Polling(Polled::Battery(text)) => RunnerView {
            tooltip: retold(runner.tooltip, Some(battery_tooltip(text@))),
            ..runner
        },
        AppEvent::Tray(event) => after_tray(runner, event, loaded),
        AppEvent::Backlight => runner,
        AppEvent::Pipewire(event) => after_sound(runner, event@, loaded),
    }
}

/// Whether an event changes what the tooltip says.
pub open spec fn retells(runner: RunnerView, event: AppEvent) -> bool {
    match event {
        AppEvent::Polling(Polled::Battery(text)) => concerns(
            runner.tooltip,
            Some(battery_tooltip(text@)),
        ),
        AppEvent::Pipewire(event) => concerns(
            runner.tooltip,
            volume_tooltip(with_news(runner.volume, event@)),
        ),
        _ => false,
    }
}

/// What the tooltip of the active window says.
pub open spec fn window_tooltip(text: Seq<char>) -> ContentView {
    ContentView { token: TokenView::WindowInfo, text: char_replaced(text, '\t', "        "@) }
}

/// What an event makes happen.
pub open spec fn effects(runner: RunnerView, event: AppEvent, cursor: Option<u32>) -> Seq<ActionView> {
    let refresh = seq![ActionView::Refresh { update_tooltip: retells(runner, event) }];
    match event {
        AppEvent::Hyprland(hyprland::Event::Urgent { win }) => seq![
            ActionView::Request(
                RequestView::Query {
                    query: Query::Clients,
                    token: ReqTokenView::Urgent { win: win@ },
                },
            ),
        ] + refresh,
        AppEvent::WindowInfo(text) => opening(runner, cursor, window_tooltip(text@)) + refresh,
        AppEvent::Backlight => seq![ActionView::ReadBacklight],
        _ => refresh,
    }
}

/// The icon that is to be looked for on account of an event.
pub open spec fn wanted_by(runner: RunnerView, event: AppEvent) -> Option<IconRequestView> {
    match event {
        AppEvent::Hyprland(hyprland::Event::ActiveWindow { class, .. }) => if class@.len() == 0 {
            None
        } else {
            wanted(runner.icons, class@, 64, false)
        },
        AppEvent::Battery(event) => match runner.battery {
            Some(battery) => if with_event(battery, event) == battery {
                None
            } else {
                wanted(runner.icons, battery_icon(with_event(battery, event)), 64, true)
            },
            None => None,
        },
        AppEvent::Tray(TrayEvent::Registered { icon_name, .. }) => wanted(
            runner.icons,
            icon_name@,
            64,
            false,
        ),
        AppEvent::Tray(TrayEvent::NewIcon { icon_name, .. }) => wanted(
            runner.icons,
            icon_name@,
            64,
            false,
        ),
        AppEvent::Pipewire(event) => match volume_icon(with_news(runner.volume, event@)) {
            Some(key) => wanted(runner.icons, key, 16, true),
            None => None,
        },
        _ => None,
    }
}

/// What happens once the battery was read: it is shown, and polled from then on.
pub open spec fn after_battery_read(
    runner: RunnerView,
    text: Seq<char>,
    cursor: Option<u32>,
) -> Seq<ActionView> {
    opening(runner, cursor, battery_tooltip(text)) + seq![ActionView::WatchBattery]
}

/// What happens once a tray item was read: what it says is shown, if it says anything.
pub open spec fn after_tray_read(
    runner: RunnerView,
    service: Seq<char>,
    text: Option<Seq<char>>,
    cursor: Option<u32>,
) -> Seq<ActionView> {
    match text {
        Some(t) => opening(runner, cursor, ContentView { token: TokenView::Tray(service), text: t }),
        None => seq![],
    }
}

/// What happens once the brightness was read.
pub open spec fn after_backlight_read(runner: RunnerView, percentage: u32) -> Seq<ActionView> {
    seq![
        ActionView::Refresh {
            update_tooltip: concerns(runner.tooltip, Some(backlight_tooltip(percentage))),
        },
    ]
}

/// The icon that is to be looked for on account of a brightness.
pub open spec fn wanted_by_backlight(runner: RunnerView, percentage: u32) -> Option<IconRequestView> {
    wanted(runner.icons, backlight_icon(percentage), 64, true)
}

/// The ellipsis takes three bytes.
proof fn lemma_ellipsis()
    ensures
        byte_len("…"@) == 3,
{
    reveal_strlit("…");
    reveal_with_fuel(vstd::utf8::encode_utf8, 2);
    assert("…"@ =~= seq!['…']);
}

impl Runner {
    /// Takes over what the compositor told.
    fn on_hyprland(&mut self, event: hyprland::Event, loaded: Option<Handle>) -> (res: Vec<Action>)
        requires
            old(self).wf(),
            admissible(old(self).model(), AppEvent::Hyprland(event)),
        ensures
            final(self).wf(),
            final(self).model() == after_hyprland(old(self).model(), event, loaded),
            actions(res@) == (match event {
                hyprland::Event::Urgent { win } => seq![
                    ActionView::Request(
                        RequestView::Query {
                            query: Query::Clients,
                            token: ReqTokenView::Urgent { win: win@ },
                        },
                    ),
                ],
                _ => seq![],
            }),
    {
        let mut res: Vec<Action> = Vec::new();
        match event {
            hyprland::Event::Workspace { id } => {
                self.workspace_focused = id - 1;
                self.urgent_workspaces.unset(id - 1);
            },
            hyprland::Event::CreateWorkspace { id } => {
                self.workspaces.set(id - 1);
            },
            hyprland::Event::DestroyWorkspace { id } => {
                self.workspaces.unset(id - 1);
                self.urgent_workspaces.unset(id - 1);
            },
            hyprland::Event::ActiveWindow { class, title } => {
                proof {
                    lemma_ellipsis();
                }
                let icon = if is_blank(class.as_str()) {
                    None
                } else {
                    self.icon_cache.load(class.as_str(), loaded)
                };
                self.window = WindowInfo {
                    icon,
                    class: truncate(class, 15, "…"),
                    title: truncate(title, 50, "…"),
                };
            },
            hyprland::Event::Urgent { win } => {
                res.push(
                    Action::Request(
                        HyprlandRequest::Query {
                            query: Query::Clients,
                            token: HyprlandReqToken::Urgent { win },
                        },
                    ),
                );
            },
        }
        assert(actions(res@) =~= (match event {
            hyprland::Event::Urgent { win } => seq![
                ActionView::Request(
                    RequestView::Query {
                        query: Query::Clients,
                        token: ReqTokenView::Urgent { win: win@ },
                    },
                ),
            ],
            _ => seq![],
        }));
        res
    }

    /// Takes over news of the battery.
    fn on_battery(&mut self, event: BatteryEvent, loaded: Option<Handle>)
        requires
            old(self).wf(),
        ensures
            final(self).wf(),
            final(self).model() == after_battery(old(self).model(), event, loaded),
    {
        match &mut self.battery_status {
            Some(battery) => {
                if battery.apply(event) {
                    battery.load_icon(&mut self.icon_cache, loaded);
                }
            },
            None => {},
        }
    }

    /// Takes over news of the tray.
    fn on_tray(&mut self, event: TrayEvent, loaded: Option<Handle>)
        requires
            old(self).wf(),
        ensures
            final(self).wf(),
            final(self).model() == after_tray(old(self).model(), event, loaded),
    {
        match event {
            TrayEvent::Registered { service, icon_name } => {
                let icon = self.icon_cache.load(icon_name.as_str(), loaded);
                self.tray_items.insert(service, TrayItem { icon });
            },
            TrayEvent::NewIcon { service, icon_name } => {
                let icon = self.icon_cache.load(icon_name.as_str(), loaded);
                self.tray_items.set_icon(service.as_str(), icon);
            },
            TrayEvent::Unregistered(service) => {
                self.tray_items.remove(service.as_str());
            },
            TrayEvent::Disconnected => {
                self.tray_items.clear();
            },
        }
    }

    /// Puts `content` into the tooltip in place of what it said, if that is about the same, and
    /// tells whether it is.
    fn retell(&mut self, content: TooltipContent) -> (told: bool)
        requires
            old(self).wf(),
            content@.token !is Tray,
        ensures
            final(self).wf(),
            final(self).model() == (RunnerView {
                tooltip: retold(old(self).model().tooltip, Some(content@)),
                ..old(self).model()
            }),
            told == concerns(old(self).model().tooltip, Some(content@)),
    {
        match &mut self.tooltip {
            Some(tooltip) => {
                let same = match (&tooltip.content.token, &content.token) {
                    (TooltipToken::WindowInfo, TooltipToken::WindowInfo) => true,
                    (TooltipToken::Volume, TooltipToken::Volume) => true,
                    (TooltipToken::Backlight, TooltipToken::Backlight) => true,
                    (TooltipToken::Battery, TooltipToken::Battery) => true,
                    _ => false,
                };
                if same {
                    tooltip.content = content;
                }
                same
            },
            None => false,
        }
    }

    /// Takes over news of the default sink, and tells whether the tooltip has followed.
    fn on_sound(&mut self, event: pipewire::Event, loaded: Option<Handle>) -> (told: bool)
        requires
            old(self).wf(),
        ensures
            final(self).wf(),
            final(self).model() == after_sound(old(self).model(), event@, loaded),
            told == concerns(
                old(self).model().tooltip,
                volume_tooltip(with_news(old(self).model().volume, event@)),
            ),
    {
        self.volume.apply(event);
        self.volume.load_icon(&mut self.icon_cache, loaded);
        match self.volume.tooltip() {
            Some(content) => self.retell(content),
            None => false,
        }
    }

    /// Whether [`Runner::dispatch_app_event`] can take an event.
    pub fn admits(&self, event: &AppEvent) -> (res: bool)
        ensures
            res == admissible(self.model(), *event),
    {
        match event {
            AppEvent::Hyprland(hyprland::Event::Workspace { id }) => 1 <= *id && *id <= BITS,
            AppEvent::Hyprland(hyprland::Event::CreateWorkspace { id }) => 1 <= *id && *id <= BITS,
            AppEvent::Hyprland(hyprland::Event::DestroyWorkspace { id }) => 1 <= *id && *id <= BITS,
            AppEvent::Urgent(id) => 1 <= *id && *id <= BITS,
            AppEvent::Polling(Polled::Clock(clock)) => clock.is_legible(),
            AppEvent::Backlight => self.backlight.is_some(),
            _ => true,
        }
    }

    /// The icon to look for before [`Runner::dispatch_app_event`].
    pub fn wanted_icon(&self, event: &AppEvent) -> (res: Option<IconRequest>)
        ensures
            request_view(res) == wanted_by(self.model(), *event),
    {
        match event {
            AppEvent::Hyprland(hyprland::Event::ActiveWindow { class, title: _ }) => {
                if is_blank(class.as_str()) {
                    None
                } else {
                    self.icon_cache.with_size(class.as_str(), 64, false)
                }
            },
            AppEvent::Battery(event) => match &self.battery_status {
                Some(battery) => {
                    let mut after = battery.copy();
                    if after.apply(*event) {
                        after.wanted_icon(&self.icon_cache)
                    } else {
                        None
                    }
                },
                None => None,
            },
            AppEvent::Tray(TrayEvent::Registered { service: _, icon_name }) => {
                self.icon_cache.with_size(icon_name.as_str(), 64, false)
            },
            AppEvent::Tray(TrayEvent::NewIcon { service: _, icon_name }) => {
                self.icon_cache.with_size(icon_name.as_str(), 64, false)
            },
            AppEvent::Pipewire(event) => self.volume.wanted_icon(event, &self.icon_cache),
            _ => None,
        }
    }

    /// Takes over an event, while the pointer is at `cursor`; `loaded` is the icon that
    /// [`Runner::wanted_icon`] asked for.
    pub fn dispatch_app_event(
        &mut self,
        event: AppEvent,
        cursor: Option<u32>,
        loaded: Option<Handle>,
    ) -> (res: Vec<Action>)
        requires
            old(self).wf(),
            admissible(old(self).model(), event),
        ensures
            final(self).wf(),
            final(self).model() == after_event(old(self).model(), event, loaded),
            actions(res@) == effects(old(self).model(), event, cursor),
    {
        let ghost pre = self.model();
        let mut res: Vec<Action> = Vec::new();
        let mut update_tooltip = false;
        match event {
            AppEvent::Hyprland(event) => {
                res = self.on_hyprland(event, loaded);
            },
            AppEvent::WindowInfo(text) => {
                let content = TooltipContent {
                    token: TooltipToken::WindowInfo,
                    text: replace_char(text.as_str(), '\t', "        "),
                };
                res = or_none(self.set_tooltip(content, cursor));
            },
            AppEvent::Urgent(id) => {
                self.urgent_workspaces.set(id - 1);
            },
            AppEvent::Battery(event) => {
                self.on_battery(event, loaded);
            },
            AppEvent::Polling(Polled::Clock(clock)) => {
                self.clock = clock;
            },
            AppEvent::Polling(Polled::Battery(text)) => {
                update_tooltip = self.retell(TooltipContent { token: TooltipToken::Battery, text });
            },
            AppEvent::Tray(event) => {
                self.on_tray(event, loaded);
            },
            AppEvent::Backlight => {
                res.push(Action::ReadBacklight);
                assert(actions(res@) =~= effects(pre, event, cursor));
                return res;
            },
            AppEvent::Pipewire(event) => {
                update_tooltip = self.on_sound(event, loaded);
            },
        }
        let ghost before = res@;
        res.push(Action::Refresh { update_tooltip });
        assert(actions(res@) =~= actions(before) + seq![ActionView::Refresh { update_tooltip }]);
        assert(actions(res@) =~= effects(pre, event, cursor));
        res
    }
}

impl Runner {
    /// Shows what was read of the battery, and has it polled.
    pub fn battery_read(&self, text: String, cursor: Option<u32>) -> (res: Vec<Action>)
        ensures
            actions(res@) == after_battery_read(self.model(), text@, cursor),
    {
        let mut res = or_none(
            self.set_tooltip(TooltipContent { token: TooltipToken::Battery, text }, cursor),
        );
        let ghost before = res@;
        res.push(Action::WatchBattery);
        assert(actions(res@) =~= actions(before) + seq![ActionView::WatchBattery]);
        res
    }

    /// Shows what was read of a tray item, if anything was.
    pub fn tray_read(&self, service: String, text: Option<String>, cursor: Option<u32>) -> (res: Vec<
        Action,
    >)
        ensures
            actions(res@) == after_tray_read(
                self.model(),
                service@,
                match text {
                    Some(t) => Some(t@),
                    None => None,
                },
                cursor,
            ),
    {
        match text {
            Some(text) => or_none(
                self.set_tooltip(
                    TooltipContent { token: TooltipToken::Tray(service), text },
                    cursor,
                ),
            ),
            None => or_none(None),
        }
    }

    /// The icon to look for before [`Runner::backlight_read`].
    pub fn wanted_backlight_icon(&self, percentage: u32) -> (res: Option<IconRequest>)
        ensures
            request_view(res) == wanted_by_backlight(self.model(), percentage),
    {
        crate::backlight::wanted_icon(percentage, &self.icon_cache)
    }

    /// Takes over the brightness that was read; `loaded` is the icon that
    /// [`Runner::wanted_backlight_icon`] asked for.
    pub fn backlight_read(&mut self, percentage: u32, loaded: Option<Handle>) -> (res: Vec<Action>)
        requires
            old(self).wf(),
            old(self).model().backlight is Some,
        ensures
            final(self).wf(),
            final(self).model() == after_backlight(old(self).model(), percentage, loaded),
            actions(res@) == after_backlight_read(old(self).model(), percentage),
    {
        let mut res: Vec<Action> = Vec::new();
        let ghost pre = self.model();
        match self.backlight.take() {
            Some(status) => {
                let mut backlight = status;
                backlight.update(percentage, &mut self.icon_cache, loaded);
                let content = backlight.tooltip();
                self.backlight = Some(backlight);
                let update_tooltip = self.retell(content);
                res.push(Action::Refresh { update_tooltip });
            },
            None => {},
        }
        assert(actions(res@) =~= after_backlight_read(pre, percentage));
        res
    }
}

/// Whether a text is empty.
fn is_blank(text: &str) -> (res: bool)
    ensures
        res == (text@.len() == 0),
{
    text.unicode_len() == 0
}

} // verus!
