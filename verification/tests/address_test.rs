use fastly_rt::address::{append_decimal, stats_from_url, stats_limited_url, stats_window_url};

fn numeral(n: u64) -> String {
    let mut out = String::new();
    append_decimal(&mut out, n);
    out
}

#[test]
fn decimal_numerals() {
    assert_eq!(numeral(0), "0");
    assert_eq!(numeral(7), "7");
    assert_eq!(numeral(9), "9");
    assert_eq!(numeral(10), "10");
    assert_eq!(numeral(99), "99");
    assert_eq!(numeral(100), "100");
    assert_eq!(numeral(1234567890), "1234567890");
    assert_eq!(numeral(1_700_000_000), "1700000000");
    assert_eq!(numeral(u64::MAX), "18446744073709551615");
}

#[test]
fn decimal_agrees_with_std() {
    let mut n: u64 = 1;
    for _ in 0..64 {
        assert_eq!(numeral(n), n.to_string());
        assert_eq!(numeral(n - 1), (n - 1).to_string());
        n = n.wrapping_mul(2);
    }
}

#[test]
fn append_decimal_keeps_what_is_there() {
    let mut out = String::from("ts/");
    append_decimal(&mut out, 42);
    assert_eq!(out, "ts/42");
    append_decimal(&mut out, 0);
    assert_eq!(out, "ts/420");
}

#[test]
fn the_three_addresses() {
    assert_eq!(stats_from_url("https://h/v1/channel", "abc", 12), "https://h/v1/channel/abc/ts/12");
    assert_eq!(stats_window_url("https://h/v1/channel", "abc"), "https://h/v1/channel/abc/ts/h");
    assert_eq!(
        stats_limited_url("https://h/v1/channel", "abc", 120),
        "https://h/v1/channel/abc/ts/h/limit/120"
    );
}

#[test]
fn addresses_take_root_and_identifier_as_they_are() {
    assert_eq!(stats_from_url("", "", 0), "//ts/0");
    assert_eq!(stats_window_url("r/", "a b"), "r//a b/ts/h");
    assert_eq!(stats_limited_url("r", "é", 0), "r/é/ts/h/limit/0");
}
