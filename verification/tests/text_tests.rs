use chrona::text::{append_milli_0dp, append_milli_2dp, append_u64, str_contains};

fn milli_0dp(v: i64) -> String {
    let mut s = String::new();
    append_milli_0dp(&mut s, v);
    s
}

fn milli_2dp(v: i64) -> String {
    let mut s = String::new();
    append_milli_2dp(&mut s, v);
    s
}

#[test]
fn digits_render_exactly() {
    let mut s = String::new();
    append_u64(&mut s, 0);
    assert_eq!(s, "0");
    let mut s = String::new();
    append_u64(&mut s, 1234);
    assert_eq!(s, "1234");
    let mut s = String::from("n=");
    append_u64(&mut s, 105);
    assert_eq!(s, "n=105");
}

#[test]
fn milli_rounds_to_whole_units() {
    assert_eq!(milli_0dp(73_850), "74");
    assert_eq!(milli_0dp(73_499), "73");
    assert_eq!(milli_0dp(73_500), "74");
    assert_eq!(milli_0dp(0), "0");
    assert_eq!(milli_0dp(-400), "-0");
    assert_eq!(milli_0dp(-2_600), "-3");
}

#[test]
fn milli_rounds_to_two_decimals() {
    assert_eq!(milli_2dp(2_500), "2.50");
    assert_eq!(milli_2dp(36_190), "36.19");
    assert_eq!(milli_2dp(45), "0.05");
    assert_eq!(milli_2dp(44), "0.04");
    assert_eq!(milli_2dp(-50), "-0.05");
    assert_eq!(milli_2dp(250), "0.25");
    assert_eq!(milli_2dp(0), "0.00");
}

#[test]
fn contains_finds_substrings() {
    assert!(str_contains("why is my heart rate high", "heart"));
    assert!(str_contains("heart", "heart"));
    assert!(str_contains("abc", ""));
    assert!(!str_contains("", "a"));
    assert!(!str_contains("hear t", "heart"));
    assert!(!str_contains("Heart", "heart"));
}
