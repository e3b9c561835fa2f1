use control_panel::text::{decimal, joined, str_less};

#[test]
fn concat_joins_in_order() {
    assert_eq!(joined("r1", "_velocity"), "r1_velocity");
    assert_eq!(joined("", "x"), "x");
    assert_eq!(joined("x", ""), "x");
    assert_eq!(joined("", ""), "");
    assert_eq!(joined("å", "ß"), "åß");
}

#[test]
fn decimal_of_single_digits() {
    let expected = ["0", "1", "2", "3", "4", "5", "6", "7", "8", "9"];
    for (n, text) in expected.iter().enumerate() {
        assert_eq!(decimal(n), *text);
    }
}

#[test]
fn decimal_of_larger_numbers() {
    assert_eq!(decimal(10), "10");
    assert_eq!(decimal(11), "11");
    assert_eq!(decimal(99), "99");
    assert_eq!(decimal(100), "100");
    assert_eq!(decimal(1234567890), "1234567890");
    assert_eq!(decimal(usize::MAX), usize::MAX.to_string());
}

#[test]
fn decimal_agrees_with_std_formatting() {
    for n in 0..2000usize {
        assert_eq!(decimal(n), n.to_string());
    }
}

#[test]
fn str_less_is_strict() {
    assert!(!str_less("", ""));
    assert!(!str_less("tool0", "tool0"));
    assert!(str_less("", "a"));
    assert!(!str_less("a", ""));
}

#[test]
fn str_less_orders_by_first_difference() {
    assert!(str_less("base", "tool0"));
    assert!(!str_less("tool0", "base"));
    assert!(str_less("tool0", "tool1"));
    assert!(str_less("tool", "tool0"));
    assert!(!str_less("tool0", "tool"));
    assert!(str_less("a10", "a9"));
}

#[test]
fn str_less_orders_by_code_point() {
    assert!(str_less("Zeta", "alpha"));
    assert!(str_less("z", "å"));
    assert!(str_less("a", "a\u{1F600}"));
    assert!(str_less("\u{FFFF}", "\u{10000}"));
    assert!(!str_less("\u{10000}", "\u{FFFF}"));
}

#[test]
fn str_less_agrees_with_std_order() {
    let samples = [
        "", "a", "ab", "b", "B", "world", "tool0", "é", "e\u{301}", "\u{10000}", "\u{FFFF}", "0",
        "00",
    ];
    for a in samples.iter() {
        for b in samples.iter() {
            assert_eq!(str_less(a, b), a < b, "{:?} against {:?}", a, b);
        }
    }
}
