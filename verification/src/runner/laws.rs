//! What holds of the bar whatever happens.

use super::bar::workspace_button;
use super::dispatch::{
    admissible, after_backlight, after_battery, after_event, after_hyprland, after_tray, concerns, retells,
    wanted_by,
};
use super::surfaces::{
    after_popup, after_surface_event, expected, lemma_measured, popup_window, surface_actions, MouseEvent,
    Popup, SurfaceAction, SurfaceEvent,
};
use super::{
    after_message, asked, closed, closing, consistent, opening, reaction, ActionView, Message, Runner, RunnerView,
};
use crate::backlight::{backlight_icon, backlight_tooltip};
use crate::battery::BatteryEvent;
use crate::bitset::BITS;
use crate::clock::legible;
use crate::events::AppEvent;
use crate::hyprland;
use crate::icons::{distinct, wanted, Handle, CAPACITY};
use crate::tooltip::{ContentView, Extent};
use crate::tray::TrayEvent;
use crate::windows::{focused_window, found, has_surface, lemma_without, lemma_without_none, measured, without};
use vstd::prelude::*;

verus! {

/// What holds of the state: the windows fit the tooltip, the clock can be read, and the icons
/// are kept each once within their number.
pub proof fn lemma_wf(runner: Runner)
    requires
        runner.wf(),
    ensures
        consistent(runner.model()),
        legible(runner.model().clock),
        distinct(runner.model().icons),
        runner.model().icons.len() <= CAPACITY,
{
    crate::icons::lemma_wf(runner.icon_cache);
}

/// There is one tooltip's window at most, and there is one exactly when there is a tooltip.
pub proof fn law_one_tooltip(runner: Runner, i: int, j: int)
    requires
        runner.wf(),
        0 <= i < runner.model().windows.len(),
        0 <= j < runner.model().windows.len(),
        runner.model().windows[i].tag is Tooltip,
        runner.model().windows[j].tag is Tooltip,
    ensures
        i == j,
        consistent(runner.model()),
        runner.model().tooltip is Some,
{
}

/// While a tooltip is open, no other is opened.
pub proof fn law_no_second_tooltip(runner: RunnerView, cursor: Option<u32>, content: ContentView)
    requires
        runner.tooltip is Some,
    ensures
        opening(runner, cursor, content).len() == 0,
{
}

/// A tooltip is refused exactly where one is open or the pointer is on no window. Else it is open
/// with its content in the end exactly where the pointer has a place and a popup was opened there;
/// what is refused, or is not opened, changes nothing.
pub proof fn law_tooltip_is_set(
    runner: RunnerView,
    cursor: Option<u32>,
    content: ContentView,
    opened: Option<Popup>,
)
    ensures
        ({
            let list = asked(runner, cursor, content);
            let after = if list is Some && list.unwrap().len() > 0 {
                after_popup(runner, content, opened)
            } else {
                runner
            };
            &&& list is None <==> runner.tooltip is Some || focused_window(
                runner.windows,
                runner.focused,
            ) is None
            &&& list is None ==> after.tooltip == runner.tooltip
            &&& list is Some ==> (after.tooltip is Some <==> cursor is Some && opened is Some)
            &&& list is Some && after.tooltip is Some ==> after.tooltip.unwrap().content == content
        }),
{
}

/// Once closed, a tooltip is not closed again.
pub proof fn law_closed_stays_closed(runner: RunnerView)
    ensures
        closed(closed(runner)) == closed(runner),
        closing(closed(runner)).len() == 0,
{
}

/// Closing a tooltip undoes its opening.
pub proof fn law_closing_undoes_opening(runner: RunnerView, content: ContentView, popup: Popup)
    requires
        runner.tooltip is None,
        !has_surface(runner.windows, popup.surface),
    ensures
        closed(after_popup(runner, content, Some(popup))) == runner,
{
    let opened = after_popup(runner, content, Some(popup));
    assert(opened.windows.drop_last() =~= runner.windows);
    lemma_without_none(runner.windows, popup.surface);
}

/// The tooltip's window is gone once it is closed.
pub proof fn law_closed_window_is_gone(runner: RunnerView)
    requires
        consistent(runner),
        runner.tooltip is Some,
    ensures
        !has_surface(closed(runner).windows, runner.tooltip.unwrap().window),
        closing(runner) == seq![ActionView::ClosePopup(runner.tooltip.unwrap().window)],
        consistent(closed(runner)),
{
    let surface = runner.tooltip.unwrap().window;
    lemma_without(runner.windows, surface);
    let rest = without(runner.windows, surface);
    assert forall|i: int| 0 <= i < rest.len() implies (#[trigger] rest[i]).tag !is Tooltip by {
        assert(runner.windows.contains(rest[i]));
        let j = choose|j: int| 0 <= j < runner.windows.len() && runner.windows[j] == rest[i];
        assert(runner.windows[j].surface != surface);
    }
}

/// The pointer's leaving an item closes its tooltip, whichever item it is.
pub proof fn law_leaving_closes(runner: RunnerView, cursor: Option<u32>)
    ensures
        after_message(runner, Message::CloseTooltip).tooltip is None,
        after_message(runner, Message::BatteryStop).tooltip is None,
        reaction(runner, Message::BatteryStop, cursor) == reaction(runner, Message::CloseTooltip, cursor)
            + seq![ActionView::StopBattery],
{
}

/// Events change neither the windows nor the focus, and keep the state consistent.
pub proof fn law_events_keep_windows(runner: RunnerView, event: AppEvent, loaded: Option<Handle>)
    requires
        consistent(runner),
        admissible(runner, event),
    ensures
        after_event(runner, event, loaded).windows == runner.windows,
        after_event(runner, event, loaded).focused == runner.focused,
        after_event(runner, event, loaded).theme == runner.theme,
        after_event(runner, event, loaded).dbus == runner.dbus,
        consistent(after_event(runner, event, loaded)),
{
}

/// An event changes the text of the tooltip at most: it stays open, in its window, and about
/// what it was about; and where its text changes, the tooltip is told to be drawn anew.
pub proof fn law_tooltip_keeps_its_subject(runner: RunnerView, event: AppEvent, loaded: Option<Handle>)
    ensures
        ({
            let before = runner.tooltip;
            let after = after_event(runner, event, loaded).tooltip;
            &&& before is Some <==> after is Some
            &&& before is Some ==> after.unwrap().window == before.unwrap().window
            &&& before is Some ==> after.unwrap().content.token == before.unwrap().content.token
            &&& !retells(runner, event) ==> after == before
        }),
{
}

/// A brightness that was read is what the tooltip says, where it is about that.
pub proof fn law_backlight_tooltip_follows(runner: RunnerView, percentage: u32, loaded: Option<Handle>)
    ensures
        ({
            let after = after_backlight(runner, percentage, loaded).tooltip;
            if concerns(runner.tooltip, Some(backlight_tooltip(percentage))) {
                &&& after.unwrap().content == backlight_tooltip(percentage)
                &&& after.unwrap().window == runner.tooltip.unwrap().window
            } else {
                after == runner.tooltip
            }
        }),
{
}

/// The workspace that was switched to wants no attention, and its button says so.
pub proof fn law_focus_ends_urgency(runner: RunnerView, id: usize, loaded: Option<Handle>)
    requires
        1 <= id <= BITS,
    ensures
        ({
            let after = after_hyprland(runner, hyprland::Event::Workspace { id }, loaded);
            &&& workspace_button(after, id - 1).focused
            &&& !workspace_button(after, id - 1).urgent
            &&& forall|idx: int|
                idx != id - 1 ==> !(#[trigger] workspace_button(after, idx)).focused
            &&& forall|idx: int|
                idx != id - 1 ==> (#[trigger] workspace_button(after, idx)).urgent
                    == workspace_button(runner, idx).urgent
        }),
{
}

/// A workspace that is gone is neither alive nor urgent, and the others are what they were.
pub proof fn law_destroyed_workspace_is_gone(runner: RunnerView, id: usize, loaded: Option<Handle>)
    requires
        1 <= id <= BITS,
    ensures
        ({
            let after = after_hyprland(runner, hyprland::Event::DestroyWorkspace { id }, loaded);
            &&& !after.workspaces.contains(id - 1)
            &&& !after.urgent.contains(id - 1)
            &&& forall|idx: int|
                idx != id - 1 ==> #[trigger] workspace_button(after, idx) == workspace_button(
                    runner,
                    idx,
                )
        }),
{
}

/// Destroying a workspace undoes its creation, where it was neither there nor urgent before.
pub proof fn law_destroying_undoes_creating(
    runner: RunnerView,
    id: usize,
    loaded: Option<Handle>,
    later: Option<Handle>,
)
    requires
        1 <= id <= BITS,
        !runner.workspaces.contains(id - 1),
        !runner.urgent.contains(id - 1),
    ensures
        after_hyprland(
            after_hyprland(runner, hyprland::Event::CreateWorkspace { id }, loaded),
            hyprland::Event::DestroyWorkspace { id },
            later,
        ) == runner,
{
    let after = after_hyprland(
        after_hyprland(runner, hyprland::Event::CreateWorkspace { id }, loaded),
        hyprland::Event::DestroyWorkspace { id },
        later,
    );
    assert(after.workspaces =~= runner.workspaces);
    assert(after.urgent =~= runner.urgent);
}

/// The same news of the battery twice change nothing the second time, and ask for no icon.
pub proof fn law_same_battery_news_are_quiet(
    runner: RunnerView,
    event: BatteryEvent,
    loaded: Option<Handle>,
    later: Option<Handle>,
)
    ensures
        ({
            let after = after_battery(runner, event, loaded);
            &&& after_battery(after, event, later) == after
            &&& wanted_by(after, AppEvent::Battery(event)) is None
        }),
{
}

/// What a search for an icon gives matters only where the icon was asked for.
pub proof fn law_icons_matter_when_wanted(
    runner: RunnerView,
    event: AppEvent,
    loaded: Option<Handle>,
    other: Option<Handle>,
)
    requires
        wanted_by(runner, event) is None,
    ensures
        after_event(runner, event, loaded) == after_event(runner, event, other),
{
}

/// What a search for the backlight's icon gives matters only where the icon was asked for.
pub proof fn law_backlight_icon_matters_when_wanted(
    runner: RunnerView,
    percentage: u32,
    loaded: Option<Handle>,
    other: Option<Handle>,
)
    requires
        wanted(runner.icons, backlight_icon(percentage), 64, true) is None,
    ensures
        after_backlight(runner, percentage, loaded) == after_backlight(runner, percentage, other),
{
}

/// Taking an item out of the tray undoes its being put there, where there was none of that
/// service; and a new icon is for an item that is there.
pub proof fn law_tray_items_come_and_go(
    runner: RunnerView,
    service: String,
    icon_name: String,
    loaded: Option<Handle>,
    later: Option<Handle>,
)
    requires
        !runner.tray.contains_key(service@),
    ensures
        after_tray(runner, TrayEvent::NewIcon { service, icon_name }, loaded).tray == runner.tray,
        after_tray(
            after_tray(runner, TrayEvent::Registered { service, icon_name }, loaded),
            TrayEvent::Unregistered(service),
            later,
        ).tray == runner.tray,
{
    assert(after_tray(
        after_tray(runner, TrayEvent::Registered { service, icon_name }, loaded),
        TrayEvent::Unregistered(service),
        later,
    ).tray =~= runner.tray);
}

/// Whatever a tray item's icon was, another event for the same service replaces it.
pub proof fn law_last_tray_icon_counts(
    runner: RunnerView,
    service: String,
    icon_name: String,
    loaded: Option<Handle>,
)
    requires
        runner.tray.contains_key(service@),
    ensures
        after_tray(runner, TrayEvent::NewIcon { service, icon_name }, loaded) == after_tray(
            runner,
            TrayEvent::Registered { service, icon_name },
            loaded,
        ),
{
}

/// While the pointer is on no window, what it does is told to none; once it has entered a
/// window, that is told to this one.
pub proof fn law_pointer_is_on_the_entered_window(runner: RunnerView, surface: u64, serial: u32, event: MouseEvent)
    requires
        surface_actions(runner, SurfaceEvent::Enter { surface, serial }) is Some,
    ensures
        surface_actions(RunnerView { focused: None, ..runner }, SurfaceEvent::Mouse(event)) is None,
        ({
            let entered = surface_actions(runner, SurfaceEvent::Enter { surface, serial }).unwrap();
            let window = found(runner.windows, surface).unwrap();
            let told = surface_actions(
                RunnerView { focused: Some(surface), ..runner },
                SurfaceEvent::Mouse(event),
            );
            &&& entered.last() == SurfaceAction::Focus(surface)
            &&& told is Some
            &&& told.unwrap()[0] == SurfaceAction::Mouse { window: window.surface, event }
            &&& event is CursorLeft <==> told.unwrap().last() == SurfaceAction::Unfocus
        }),
{
}

/// A callback has the window drawn that waits for it, and comes once.
pub proof fn law_callbacks_come_once(runner: RunnerView, callback: u32, window: u64)
    ensures
        ({
            let waiting = RunnerView { callbacks: runner.callbacks.insert(callback, window), ..runner };
            let done = SurfaceEvent::CallbackDone(callback);
            &&& expected(waiting, done)
            &&& surface_actions(waiting, done) == Some(seq![SurfaceAction::Draw(window)])
            &&& !expected(after_surface_event(waiting, done), done)
        }),
{
}

/// A change of the state, one for each call that makes one.
pub enum Step {
    Event(AppEvent, Option<Handle>),
    Brightness(u32, Option<Handle>),
    Widget(Message),
    Close,
    Popup(ContentView, Option<Popup>),
    Measured(u64, Extent),
    Focus(Option<u64>),
    Surface(SurfaceEvent),
    Await(u32, u64),
}

/// The state after a change.
pub open spec fn stepped(runner: RunnerView, step: Step) -> RunnerView {
    match step {
        Step::Event(event, loaded) => after_event(runner, event, loaded),
        Step::Brightness(percentage, loaded) => after_backlight(runner, percentage, loaded),
        Step::Widget(message) => after_message(runner, message),
        Step::Close => closed(runner),
        Step::Popup(content, opened) => after_popup(runner, content, opened),
        Step::Measured(surface, size) => RunnerView {
            windows: measured(runner.windows, surface, size),
            ..runner
        },
        Step::Focus(surface) => RunnerView { focused: surface, ..runner },
        Step::Surface(event) => after_surface_event(runner, event),
        Step::Await(callback, window) => RunnerView {
            callbacks: runner.callbacks.insert(callback, window),
            ..runner
        },
    }
}

/// Whether a change can be made, as the call that makes it asks.
pub open spec fn permitted(runner: RunnerView, step: Step) -> bool {
    match step {
        Step::Event(event, _) => admissible(runner, event),
        Step::Brightness(..) => runner.backlight is Some,
        Step::Popup(_, opened) => runner.tooltip is None && (opened matches Some(popup) ==> !has_surface(
            runner.windows,
            popup.surface,
        )),
        Step::Surface(event) => expected(runner, event),
        _ => true,
    }
}

/// The state after a run of changes.
pub open spec fn ran(runner: RunnerView, steps: Seq<Step>) -> RunnerView
    decreases steps.len(),
{
    if steps.len() == 0 {
        runner
    } else {
        stepped(ran(runner, steps.drop_last()), steps.last())
    }
}

/// Whether a run of changes can be made, one after the other.
pub open spec fn all_permitted(runner: RunnerView, steps: Seq<Step>) -> bool
    decreases steps.len(),
{
    steps.len() == 0 || (all_permitted(runner, steps.drop_last()) && permitted(
        ran(runner, steps.drop_last()),
        steps.last(),
    ))
}

/// Whatever happens, the tooltip's window stays the only one of its kind, and the others keep
/// apart.
pub proof fn law_runs_stay_consistent(runner: RunnerView, steps: Seq<Step>)
    requires
        consistent(runner),
        all_permitted(runner, steps),
    ensures
        consistent(ran(runner, steps)),
    decreases steps.len(),
{
    if steps.len() > 0 {
        law_runs_stay_consistent(runner, steps.drop_last());
        let before = ran(runner, steps.drop_last());
        if before.tooltip is Some {
            law_closed_window_is_gone(before);
        }
        match steps.last() {
            Step::Measured(surface, size) => {
                lemma_measured(before, surface, size);
            },
            Step::Popup(content, Some(popup)) => {
                let after = after_popup(before, content, Some(popup));
                let n = before.windows.len() as int;
                assert(after.windows[n] == popup_window(popup));
            },
            _ => {},
        }
    }
}

/// Whether the workspace at `idx` is alive after a run of changes: it is what the last creation
/// or destruction says, or what it was where there is none.
pub open spec fn alive_after(before: bool, steps: Seq<Step>, idx: int) -> bool
    decreases steps.len(),
{
    if steps.len() == 0 {
        before
    } else {
        match steps.last() {
            Step::Event(AppEvent::Hyprland(hyprland::Event::CreateWorkspace { id }), _) if id == idx + 1 => {
                true
            },
            Step::Event(AppEvent::Hyprland(hyprland::Event::DestroyWorkspace { id }), _) if id == idx + 1 => {
                false
            },
            _ => alive_after(before, steps.drop_last(), idx),
        }
    }
}

/// Whether the workspace at `idx` wants attention after a run of changes: the last news of that,
/// switch to it or destruction decides, or what it was where there is none.
pub open spec fn urgent_after(before: bool, steps: Seq<Step>, idx: int) -> bool
    decreases steps.len(),
{
    if steps.len() == 0 {
        before
    } else {
        match steps.last() {
            Step::Event(AppEvent::Urgent(id), _) if id == idx + 1 => true,
            Step::Event(AppEvent::Hyprland(hyprland::Event::Workspace { id }), _) if id == idx + 1 => {
                false
            },
            Step::Event(AppEvent::Hyprland(hyprland::Event::DestroyWorkspace { id }), _) if id == idx + 1 => {
                false
            },
            _ => urgent_after(before, steps.drop_last(), idx),
        }
    }
}

/// A workspace is alive or urgent by the last event that concerns it.
pub proof fn law_last_event_decides(runner: RunnerView, steps: Seq<Step>, idx: int)
    ensures
        ran(runner, steps).workspaces.contains(idx) == alive_after(
            runner.workspaces.contains(idx),
            steps,
            idx,
        ),
        ran(runner, steps).urgent.contains(idx) == urgent_after(
            runner.urgent.contains(idx),
            steps,
            idx,
        ),
    decreases steps.len(),
{
    if steps.len() > 0 {
        law_last_event_decides(runner, steps.drop_last(), idx);
    }
}

} // verus!
