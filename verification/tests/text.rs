use flowsurface::charts::scales::timeseries::{select_step, M1_TIME_STEPS};
use flowsurface::text::{
    decimal_with_suffix, find_char_from, has_prefix_at, push_decimal, push_grouped, push_range,
    str_equals,
};

#[test]
fn strings_compare_by_characters() {
    assert!(str_equals("abc", "abc"));
    assert!(!str_equals("abc", "abd"));
    assert!(!str_equals("abc", "ab"));
    assert!(str_equals("", ""));
}

#[test]
fn finds_a_character_from_a_position() {
    assert_eq!(find_char_from("a.b.c", 5, '.', 0), 1);
    assert_eq!(find_char_from("a.b.c", 5, '.', 2), 3);
    assert_eq!(find_char_from("a.b.c", 5, '.', 4), 5);
    assert_eq!(find_char_from("abc", 3, '.', 0), 3);
}

#[test]
fn prefix_of_a_slice() {
    let s = "btcusdt@kline_1m";
    let n = s.chars().count();
    assert!(has_prefix_at(s, n, 0, n, "btc"));
    assert!(has_prefix_at(s, n, 8, n, "kline"));
    assert!(!has_prefix_at(s, n, 8, 10, "kline"));
    assert!(!has_prefix_at(s, n, 0, n, "eth"));
}

#[test]
fn decimal_numerals_append_digits() {
    let mut s = String::from("n=");
    push_decimal(&mut s, 1234);
    assert_eq!(s, "n=1234");
    let mut z = String::new();
    push_decimal(&mut z, 0);
    assert_eq!(z, "0");
    assert_eq!(decimal_with_suffix(15, "m"), "15m");
    assert_eq!(decimal_with_suffix(18446744073709551615, ""), "18446744073709551615");
}

#[test]
fn copies_and_groups_ranges() {
    let mut out = String::new();
    push_range(&mut out, "hello", 5, 1, 3);
    assert_eq!(out, "el");
    let mut g = String::new();
    push_grouped(&mut g, "1234567", 7, 0, 7);
    assert_eq!(g, "1,234,567");
    let mut h = String::new();
    push_grouped(&mut h, "x123456", 7, 1, 7);
    assert_eq!(h, "123,456");
    let mut short = String::new();
    push_grouped(&mut short, "999", 3, 0, 3);
    assert_eq!(short, "999");
}

#[test]
fn label_step_fits_the_range() {
    // Three hours: half-hour steps are the first to give five labels.
    assert_eq!(select_step(&M1_TIME_STEPS, 10_800_000, 5), 1_800_000);
    // A range shorter than every step keeps the largest step.
    assert_eq!(select_step(&M1_TIME_STEPS, 30_000, 5), 43_200_000);
    // A range of twenty minutes: the ten-minute step gives two labels.
    assert_eq!(select_step(&M1_TIME_STEPS, 1_200_000, 2), 600_000);
}
