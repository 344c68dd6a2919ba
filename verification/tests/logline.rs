use winserial::logline::{append_count_line, decimal_string, render_count_line};

#[test]
fn decimal_single_digits() {
    assert_eq!(decimal_string(0), "0");
    assert_eq!(decimal_string(7), "7");
    assert_eq!(decimal_string(9), "9");
}

#[test]
fn decimal_multiple_digits() {
    assert_eq!(decimal_string(10), "10");
    assert_eq!(decimal_string(42), "42");
    assert_eq!(decimal_string(100), "100");
    assert_eq!(decimal_string(1000001), "1000001");
}

#[test]
fn decimal_largest_value() {
    assert_eq!(decimal_string(u32::MAX), "4294967295");
}

#[test]
fn count_line_format() {
    assert_eq!(render_count_line(5), "Count is 5\r\n");
    assert_eq!(render_count_line(0), "Count is 0\r\n");
    assert_eq!(render_count_line(123), "Count is 123\r\n");
}

#[test]
fn appending_keeps_earlier_log_text() {
    let logs = String::from("Count is 1\r\n");
    let logs = append_count_line(logs, 2);
    assert_eq!(logs, "Count is 1\r\nCount is 2\r\n");
    let empty = append_count_line(String::new(), 4);
    assert_eq!(empty, "Count is 4\r\n");
}
