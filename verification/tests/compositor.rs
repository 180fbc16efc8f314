use hyoka::clients::{find_workspace, search_clients, Search};
use hyoka::events::{from_answer, readable, AppEvent};
use hyoka::hyprland::HyprlandReqToken;

const LIST: &str = "Window 55d0 -> kitty:\n\tmapped: 1\n\tworkspace: 2 (2)\n\nWindow 66e1 -> mpv:\n\tat: 0,0\n\tworkspace: 10 (10)\n\tfloating: 0\n";

#[test]
fn a_window_is_on_its_workspace() {
    assert_eq!(find_workspace(b"55d0", LIST.as_bytes()), Some(2));
    assert_eq!(find_workspace(b"66e1", LIST.as_bytes()), Some(10));
    assert_eq!(find_workspace(b"77f2", LIST.as_bytes()), None);
}

#[test]
fn an_address_is_found_by_its_beginning() {
    assert_eq!(find_workspace(b"66", LIST.as_bytes()), Some(10));
    assert_eq!(find_workspace(b"", LIST.as_bytes()), Some(2));
}

#[test]
fn the_first_workspace_behind_the_window_counts() {
    let list = "Window a\n\tno workspace\nWindow b\n\tworkspace: 7 (7)";
    assert_eq!(find_workspace(b"a", list.as_bytes()), Some(7));
    assert_eq!(search_clients(b"a", b"Window a\n\tworkspace: 7"), Search::Missing);
}

#[test]
fn malformed_lines_are_told() {
    assert_eq!(search_clients(b"a", b"Window"), Search::Malformed);
    assert_eq!(search_clients(b"a", b"Window a\n\tworkspace"), Search::Malformed);
    assert_eq!(search_clients(b"a", b"Window a\n\tworkspace: -98 (special)"), Search::Malformed);
    assert_eq!(search_clients(b"a", b"Window a\n\tworkspace: x (x)"), Search::Malformed);
    assert_eq!(search_clients(b"a", b"\tworkspace: x (x)\nWindow a"), Search::Missing);
    assert_eq!(search_clients(b"a", b""), Search::Missing);
}

#[test]
fn answers_become_events() {
    match from_answer(HyprlandReqToken::ActiveWindow, "a\tb".to_string()) {
        Some(AppEvent::WindowInfo(text)) => assert_eq!(text, "a\tb"),
        _ => panic!("no description"),
    }
    let token = HyprlandReqToken::Urgent { win: "66e1".to_string() };
    assert!(matches!(from_answer(token, LIST.to_string()), Some(AppEvent::Urgent(10))));
    let token = HyprlandReqToken::Urgent { win: "none".to_string() };
    assert!(readable(&token, LIST));
    assert!(!readable(&token, "Window"));
    assert!(readable(&HyprlandReqToken::ActiveWindow, "Window"));
    assert!(from_answer(token, LIST.to_string()).is_none());
}
