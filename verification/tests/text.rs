use order_bridge::text::{eq_ignore_case, fold_char, push_decimal};
use order_bridge::wire::SerialMessage;

#[test]
fn fold_char_lowers_ascii_capitals_only() {
    assert_eq!(fold_char('A'), 'a');
    assert_eq!(fold_char('Z'), 'z');
    assert_eq!(fold_char('M'), 'm');
    assert_eq!(fold_char('a'), 'a');
    assert_eq!(fold_char('@'), '@');
    assert_eq!(fold_char('['), '[');
    assert_eq!(fold_char('0'), '0');
    assert_eq!(fold_char('É'), 'É');
    assert_eq!(fold_char('\u{212a}'), '\u{212a}');
}

#[test]
fn eq_ignore_case_compares_letter_by_letter() {
    assert!(eq_ignore_case("Preparing", "preparing"));
    assert!(eq_ignore_case("preparing", "PREPARING"));
    assert!(eq_ignore_case("", ""));
    assert!(eq_ignore_case("a-1", "A-1"));
    assert!(eq_ignore_case("été", "été"));
    assert!(!eq_ignore_case("Été", "été"));
    assert!(!eq_ignore_case("prepare", "preparing"));
    assert!(!eq_ignore_case("preparing", "prepare"));
    assert!(!eq_ignore_case("pending", "panding"));
    assert!(!eq_ignore_case("a", ""));
}

fn decimal(n: i32) -> String {
    let mut out = String::from(">");
    push_decimal(&mut out, n);
    out
}

#[test]
fn push_decimal_appends_the_decimal_text() {
    assert_eq!(decimal(0), ">0");
    assert_eq!(decimal(7), ">7");
    assert_eq!(decimal(10), ">10");
    assert_eq!(decimal(42), ">42");
    assert_eq!(decimal(100), ">100");
    assert_eq!(decimal(-1), ">-1");
    assert_eq!(decimal(-90), ">-90");
    assert_eq!(decimal(i32::MAX), ">2147483647");
    assert_eq!(decimal(i32::MIN), ">-2147483648");
    for n in [-1000, -999, -11, -10, -9, 9, 11, 99, 101, 12345, 1000000] {
        assert_eq!(decimal(n), format!(">{}", n));
    }
}

#[test]
fn assemble_lays_out_the_four_members() {
    let items = vec![("\"Latte\"".to_string(), 2), ("\"T\\\"\"".to_string(), -3)];
    assert_eq!(
        SerialMessage::assemble("\"new_order\"", "\"abc-123\"", None, Some(&items)),
        "{\"message_type\":\"new_order\",\"order_number\":\"abc-123\",\"status\":null,\"items\":[{\"name\":\"Latte\",\"quantity\":2},{\"name\":\"T\\\"\",\"quantity\":-3}]}"
    );
    assert_eq!(
        SerialMessage::assemble("\"status_update\"", "\"n\"", Some("\"pending\""), None),
        "{\"message_type\":\"status_update\",\"order_number\":\"n\",\"status\":\"pending\",\"items\":null}"
    );
    assert_eq!(
        SerialMessage::assemble("A", "B", Some("C"), Some(&vec![])),
        "{\"message_type\":A,\"order_number\":B,\"status\":C,\"items\":[]}"
    );
}
