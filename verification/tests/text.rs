use session_signals::table::Table;
use session_signals::text::{
    begins_with, chars_of, contains_text, in_order, same_text, strip_prefix, trim, trim_start,
    white,
};
use session_signals::time::{Duration, Instant};

#[test]
fn white_space_is_what_the_standard_library_calls_so() {
    for code in 0..0x11_0000u32 {
        if let Some(c) = char::from_u32(code) {
            assert_eq!(white(c), c.is_whitespace(), "U+{code:04X}");
        }
    }
}

#[test]
fn trimming_takes_white_space_off_the_ends() {
    for s in ["", " ", " a b ", "\u{a0}x\u{2003}", "x", "\n\n", "é \t"] {
        assert_eq!(trim(s), s.trim());
        assert_eq!(trim_start(s), s.trim_start());
    }
}

#[test]
fn searching_agrees_with_the_standard_library() {
    let words = ["", "a", "ab", "abc", "bc", "ü", "xü", "üx", "aab"];
    for a in words {
        for b in words {
            assert_eq!(same_text(a, b), a == b);
            assert_eq!(contains_text(a, b), a.contains(b));
            assert_eq!(begins_with(a, b), a.starts_with(b));
            assert_eq!(strip_prefix(a, b), a.strip_prefix(b));
            assert_eq!(in_order(a, b), a <= b);
        }
        assert_eq!(chars_of(a), a.chars().collect::<Vec<char>>());
    }
}

#[test]
fn a_table_holds_one_value_for_a_key() {
    let mut t: Table<u32> = Table::new();
    assert_eq!(t.len(), 0);
    t.insert("a".to_string(), 1);
    t.insert("b".to_string(), 2);
    t.insert("a".to_string(), 3);
    assert_eq!(t.len(), 2);
    assert_eq!(t.get("a"), Some(&3));
    assert_eq!(t.key_at(1), "b");
    assert_eq!(t.value_at(1), &2);
    if let Some(v) = t.get_mut("b") {
        *v = 5;
    }
    *t.value_mut_at(0) = 4;
    t.remove("a");
    t.remove("c");
    assert!(!t.contains_key("a"));
    assert_eq!(t.get("b"), Some(&5));
    t.remove_at(0);
    assert_eq!(t.len(), 0);
}

#[test]
fn time_does_not_run_backwards() {
    let t = Instant { nanos: 5_000_000_000 };
    let u = t + Duration::from_millis(1_500);
    assert_eq!(u.nanos, 6_500_000_000);
    assert_eq!(u.duration_since(t), Duration::from_millis(1_500));
    assert_eq!(t.duration_since(u), Duration::from_secs(0));
    assert_eq!(u.secs_since(t), 1);
    assert_eq!(t.secs_since(u), 0);
    assert!(u.is_past(t, Duration::from_millis(1_500)));
    assert!(!u.is_past(t, Duration::from_millis(1_501)));
    assert!(t.is_past(u, Duration::from_secs(0)));
}
