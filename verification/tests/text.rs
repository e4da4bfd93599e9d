use tesla_wallcon_monitor::text::{
    count_line, labelled, list_line, push_decimal, push_joined, push_signed_decimal, push_truth,
    reading_line, signed_line, truth_line,
};

fn decimal(n: u64) -> String {
    let mut out = String::new();
    push_decimal(&mut out, n);
    out
}

fn signed(i: i64) -> String {
    let mut out = String::new();
    push_signed_decimal(&mut out, i);
    out
}

#[test]
fn zero_is_one_digit() {
    assert_eq!(decimal(0), "0");
}

#[test]
fn single_digits() {
    assert_eq!(decimal(7), "7");
    assert_eq!(decimal(9), "9");
}

#[test]
fn powers_of_ten_keep_their_zeros() {
    assert_eq!(decimal(10), "10");
    assert_eq!(decimal(1000), "1000");
    assert_eq!(decimal(1_000_000_007), "1000000007");
}

#[test]
fn the_largest_number() {
    assert_eq!(decimal(u64::MAX), "18446744073709551615");
}

#[test]
fn decimal_agrees_with_the_standard_rendering() {
    for n in [0u64, 1, 9, 10, 11, 99, 100, 101, 12345, 86400, 4294967295, 4294967296] {
        assert_eq!(decimal(n), format!("{}", n));
    }
}

#[test]
fn negative_numbers_carry_a_minus_sign() {
    assert_eq!(signed(-1), "-1");
    assert_eq!(signed(-67), "-67");
}

#[test]
fn non_negative_numbers_carry_no_sign() {
    assert_eq!(signed(0), "0");
    assert_eq!(signed(42), "42");
}

#[test]
fn the_extremes_of_the_signed_range() {
    assert_eq!(signed(i64::MIN), "-9223372036854775808");
    assert_eq!(signed(i64::MAX), "9223372036854775807");
}

#[test]
fn truth_values_are_written_in_words() {
    let mut out = String::new();
    push_truth(&mut out, true);
    out.push(' ');
    push_truth(&mut out, false);
    assert_eq!(out, "true false");
}

#[test]
fn joining_nothing_appends_nothing() {
    let mut out = String::from("x");
    push_joined(&mut out, &Vec::new(), ", ");
    assert_eq!(out, "x");
}

#[test]
fn joining_one_item_uses_no_separator() {
    let mut out = String::new();
    push_joined(&mut out, &vec![String::from("version")], ", ");
    assert_eq!(out, "version");
}

#[test]
fn joining_puts_the_separator_between_neighbours() {
    let mut out = String::new();
    let parts = vec![String::from("a"), String::new(), String::from("c")];
    push_joined(&mut out, &parts, ", ");
    assert_eq!(out, "a, , c");
}

#[test]
fn lines_put_the_label_first_and_the_unit_last() {
    assert_eq!(labelled("  SSID: ", "home"), "  SSID: home");
    assert_eq!(count_line("n: ", 0, ""), "n: 0");
    assert_eq!(count_line("n: ", 12, " x"), "n: 12 x");
    assert_eq!(signed_line("  RSSI: ", -58, " dBm"), "  RSSI: -58 dBm");
    assert_eq!(truth_line("  Internet: ", true), "  Internet: true");
    assert_eq!(reading_line("  Temp: ", "33.7", "°C"), "  Temp: 33.7°C");
    let items = vec![String::from("1"), String::from("2")];
    assert_eq!(list_line("  Alerts: ", &items), "  Alerts: 1, 2");
}
