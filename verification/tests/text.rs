use hyoka::text::{
    chars, push_decimal, push_hex, replace_all, replace_char, same_text, trim_end, truncate, white,
};

fn cut(s: &str, len: usize) -> String {
    truncate(s.to_string(), len, "…")
}

#[test]
fn short_texts_stay_whole() {
    assert_eq!(cut("", 15), "");
    assert_eq!(cut("firefox", 15), "firefox");
    assert_eq!(cut("fourteen bytes", 15), "fourteen bytes");
}

#[test]
fn a_text_of_the_limit_is_cut() {
    assert_eq!(cut("exactly fifteen", 15), "exactly fift…");
    assert_eq!(cut("exactly fifteen", 16), "exactly fifteen");
    assert_eq!(cut("exactly fifteen", 15).len(), 15);
}

#[test]
fn characters_stay_whole_when_cut() {
    assert_eq!(cut("ααααααααα", 15), "αααααα…");
    assert_eq!(cut("αααααααα", 14), "ααααα…");
    assert_eq!(cut("漢字漢字漢字", 15), "漢字漢字…");
    assert_eq!(cut("漢字漢字漢字", 14), "漢字漢…");
}

#[test]
fn cutting_again_changes_nothing() {
    for s in ["exactly fifteen", "ααααααααα", "漢字漢字漢字", "aaaaaaaaa𒊹𒊹𒊹", "short"] {
        let once = cut(s, 15);
        assert_eq!(cut(&once, 15), once);
        assert!(s.len() < 15 || once.len() >= 12);
    }
    assert_eq!(cut("aaaaaaaaa𒊹𒊹𒊹", 15).len(), 12);
}

#[test]
fn the_ellipsis_alone_can_fill_the_limit() {
    assert_eq!(cut("abcdef", 3), "…");
    assert_eq!(truncate("abcdef".to_string(), 0, ""), "");
}

#[test]
fn tabs_become_blanks() {
    assert_eq!(
        replace_char("Window 1\n\tclass: a\t", '\t', "        "),
        "Window 1\n        class: a        "
    );
    assert_eq!(replace_char("no tab", '\t', "        "), "no tab");
    assert!(!replace_char("\t\t", '\t', "        ").contains('\t'));
}

#[test]
fn texts_are_replaced_from_left_to_right() {
    assert_eq!(replace_all("aaa", "aa", "b"), "ba");
    assert_eq!(replace_all("xcurrentColory", "currentColor", "#fff"), "x#fffy");
    assert_eq!(replace_all("nothing", "currentColor", "#fff"), "nothing");
    assert_eq!(replace_all("abab", "ab", "ab"), "abab");
    assert_eq!(replace_all("", "ab", "c"), "");
}

#[test]
fn white_space_is_trimmed_at_the_end() {
    assert_eq!(trim_end("  text \n\t\u{3000}"), "  text");
    assert_eq!(trim_end("  text \n\t\u{3000}"), "  text \n\t\u{3000}".trim_end());
    assert_eq!(trim_end(" \n"), "");
    assert_eq!(trim_end("text"), "text");
}

#[test]
fn white_space_is_what_std_says() {
    for n in 0..0x11_0000u32 {
        if let Some(c) = char::from_u32(n) {
            assert_eq!(white(c), c.is_whitespace());
        }
    }
}

#[test]
fn numbers_are_written_out() {
    let mut out = String::from("n=");
    push_decimal(&mut out, 0);
    out.push(' ');
    push_decimal(&mut out, 4294967295);
    out.push(' ');
    push_decimal(&mut out, u64::MAX);
    assert_eq!(out, "n=0 4294967295 18446744073709551615");
    let mut out = String::new();
    push_hex(&mut out, 0xcd);
    push_hex(&mut out, 0x05);
    assert_eq!(out, "cd05");
}

#[test]
fn texts_are_compared() {
    assert!(same_text("", ""));
    assert!(same_text("Headphones", "Headphones"));
    assert!(!same_text("Headphones", "headphones"));
    assert!(!same_text("Head", "Headphones"));
}

#[test]
fn a_text_has_its_characters() {
    assert_eq!(chars("a…b"), vec!['a', '…', 'b']);
}
