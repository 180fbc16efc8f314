use hyoka::bytes::{find_byte, parse_decimal, same, split, split_once, starts_with};

#[test]
fn bytes_are_split() {
    assert_eq!(split(b"a\0b\0", 0), vec![&b"a"[..], &b"b"[..], &b""[..]]);
    assert_eq!(split(b"", 0), vec![&b""[..]]);
    assert_eq!(split(b"abc", b'\n'), vec![&b"abc"[..]]);
    assert_eq!(split_once(b"k=v=w", b'='), Some((&b"k"[..], &b"v=w"[..])));
    assert_eq!(split_once(b"kv", b'='), None);
    assert_eq!(split_once(b"=", b'='), Some((&b""[..], &b""[..])));
    assert_eq!(find_byte(b"abcabc", 1, b'a'), 3);
    assert_eq!(find_byte(b"abc", 0, b'x'), 3);
}

#[test]
fn bytes_are_compared() {
    assert!(same(b"", b""));
    assert!(same(b"ab", b"ab"));
    assert!(!same(b"ab", b"ac"));
    assert!(!same(b"ab", b"abc"));
    assert!(starts_with(b"Window 1", b"Window"));
    assert!(starts_with(b"Window", b""));
    assert!(!starts_with(b"Win", b"Window"));
}

#[test]
fn decimals_are_read_as_std_reads_them() {
    let samples = [
        "", "+", "-", "0", "00", "007", "+7", "++7", "-7", "-0", "12a", " 1", "255", "256", "+255",
        "99999999999999999999999", "0000000000000000000000012",
    ];
    for s in samples {
        assert_eq!(
            parse_decimal(s.as_bytes(), 255),
            s.parse::<u8>().ok().map(|x| x as u64),
            "{s}"
        );
        assert_eq!(
            parse_decimal(s.as_bytes(), u32::MAX as u64),
            s.parse::<u32>().ok().map(|x| x as u64),
            "{s}"
        );
        assert_eq!(parse_decimal(s.as_bytes(), u64::MAX), s.parse::<u64>().ok(), "{s}");
    }
}
