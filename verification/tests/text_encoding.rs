use notification_server::text::{push_decimal, push_json_string, push_signed_decimal};

fn decimal(n: u64) -> String {
    let mut out = String::new();
    push_decimal(&mut out, n);
    out
}

fn signed(n: i64) -> String {
    let mut out = String::new();
    push_signed_decimal(&mut out, n);
    out
}

fn json(s: &str) -> String {
    let mut out = String::new();
    push_json_string(&mut out, s);
    out
}

#[test]
fn decimal_of_small_and_large_numbers() {
    assert_eq!(decimal(0), "0");
    assert_eq!(decimal(7), "7");
    assert_eq!(decimal(10), "10");
    assert_eq!(decimal(2592000), "2592000");
    assert_eq!(decimal(u64::MAX), "18446744073709551615");
}

#[test]
fn signed_decimal_keeps_the_sign() {
    assert_eq!(signed(0), "0");
    assert_eq!(signed(-1), "-1");
    assert_eq!(signed(1462629479), "1462629479");
    assert_eq!(signed(i64::MIN), "-9223372036854775808");
    assert_eq!(signed(i64::MAX), "9223372036854775807");
}

#[test]
fn decimal_appends_after_existing_text() {
    let mut out = String::from("exp=");
    push_decimal(&mut out, 42);
    assert_eq!(out, "exp=42");
}

#[test]
fn json_string_escapes_quote_backslash_and_controls() {
    assert_eq!(json(""), "\"\"");
    assert_eq!(json("plain"), "\"plain\"");
    assert_eq!(json("a\"b\\c"), "\"a\\\"b\\\\c\"");
    assert_eq!(json("\u{8}\t\n\u{c}\r"), "\"\\b\\t\\n\\f\\r\"");
    assert_eq!(json("\u{0}\u{1f}\u{7f}"), "\"\\u0000\\u001f\u{7f}\"");
    assert_eq!(json("こんにちは/"), "\"こんにちは/\"");
}

#[test]
fn json_string_agrees_with_serde_json() {
    let samples = ["", "Good Morning!! (love)", "tab\there", "quote\"", "\u{1}\u{1b}", "絵文字$"];
    for s in samples {
        assert_eq!(json(s), serde_json::to_string(s).unwrap());
    }
}
