use hyoka::tooltip::Extent;
use hyoka::windows::{Role, Tag, Window, WindowAction, WindowManager};

const SIZE: Extent = Extent { width: 0x4120_0000, height: 0x4120_0000 };

fn bar() -> Window {
    Window { surface: 1, role: Role::Layer { layer_surface: 2 }, tag: Tag::Bar }
}

fn popup() -> Window {
    Window {
        surface: 3,
        role: Role::Popup { xdg_surface: 4, popup: 5, positioner: 6, size: SIZE },
        tag: Tag::Tooltip,
    }
}

fn both() -> WindowManager {
    let mut manager = WindowManager::new();
    manager.create_window(bar());
    manager.create_window(popup());
    manager
}

#[test]
fn windows_are_found_by_their_objects() {
    let manager = both();
    assert_eq!(manager.find_by_object(1), Some(bar()));
    assert_eq!(manager.find_by_object(2), Some(bar()));
    assert_eq!(manager.find_by_object(3), Some(popup()));
    assert_eq!(manager.find_by_object(4), Some(popup()));
    assert_eq!(manager.find_by_object(5), Some(popup()));
    assert_eq!(manager.find_by_object(6), None);
    assert_eq!(WindowManager::new().find_by_object(1), None);
}

#[test]
fn the_focused_window_must_be_there() {
    let mut manager = both();
    assert_eq!(manager.focused(), None);
    manager.focused = Some(3);
    assert_eq!(manager.focused(), Some(popup()));
    manager.close_window(3);
    assert_eq!(manager.focused(), None);
    assert_eq!(manager.windows, vec![bar()]);
}

#[test]
fn bars_are_redrawn_and_tooltips_when_told() {
    let manager = both();
    assert_eq!(
        manager.refresh(false),
        vec![WindowAction::Outdate(1), WindowAction::Redraw(1), WindowAction::Outdate(3)]
    );
    assert_eq!(
        manager.refresh(true),
        vec![
            WindowAction::Outdate(1),
            WindowAction::Redraw(1),
            WindowAction::Outdate(3),
            WindowAction::Remeasure(3),
            WindowAction::Redraw(3),
        ]
    );
}

#[test]
fn a_tooltip_on_a_layer_is_not_measured() {
    let mut manager = WindowManager::new();
    manager.create_window(Window { tag: Tag::Tooltip, ..bar() });
    assert_eq!(
        manager.refresh(true),
        vec![WindowAction::Outdate(1), WindowAction::Redraw(1)]
    );
}

#[test]
fn popups_grow_but_do_not_shrink() {
    let mut manager = both();
    let larger = Extent { width: 0x4130_0000, height: SIZE.height };
    assert!(manager.measure(3, larger));
    assert!(!manager.measure(3, larger));
    assert!(!manager.measure(3, SIZE));
    assert!(manager.measure(3, larger));
    assert!(!manager.measure(1, larger));
    assert!(!manager.measure(9, larger));
    assert_eq!(manager.windows[0], bar());
    assert!(matches!(manager.windows[1].role, Role::Popup { size, .. } if size == larger));
}
