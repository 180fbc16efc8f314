use hyoka::attr::Attr;
use hyoka::bitset::{BitSet, BITS};
use hyoka::float::{is_equal, is_less, nan};

#[test]
fn a_new_set_is_empty() {
    let set = BitSet::new();
    for i in 0..BITS {
        assert!(!set.get(i));
    }
}

#[test]
fn indices_are_set_and_unset_alone() {
    let mut set = BitSet::new();
    set.set(0);
    set.set(15);
    set.set(7);
    set.set(7);
    for i in 0..BITS {
        assert_eq!(set.get(i), i == 0 || i == 7 || i == 15);
    }
    set.unset(7);
    set.unset(3);
    for i in 0..BITS {
        assert_eq!(set.get(i), i == 0 || i == 15);
    }
}

#[test]
fn an_update_tells_whether_it_changes() {
    let mut attr = Attr(5u8);
    assert!(!attr.update(5));
    assert!(attr.update(6));
    assert_eq!(attr.0, 6);
    assert!(!attr.update(6));
    let mut charging: Attr<Option<bool>> = Attr(None);
    assert!(charging.update(Some(false)));
    assert!(charging.update(Some(true)));
    assert!(!charging.update(Some(true)));
    assert_eq!(charging.0, Some(true));
}

#[test]
fn numbers_compare_as_std_says() {
    let samples = [
        0.0f32,
        -0.0,
        1.0,
        -1.0,
        0.33,
        0.67,
        f32::INFINITY,
        f32::NEG_INFINITY,
        f32::NAN,
        -f32::NAN,
        f32::MIN_POSITIVE,
        f32::MAX,
        f32::MIN,
        1.0e-45,
    ];
    for a in samples {
        assert_eq!(nan(a.to_bits()), a.is_nan());
        for b in samples {
            assert_eq!(is_less(a.to_bits(), b.to_bits()), a < b);
            assert_eq!(is_equal(a.to_bits(), b.to_bits()), a == b);
        }
    }
}
