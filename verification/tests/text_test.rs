use qpay::text::{decimal_string, join2, join3};

#[test]
fn decimal_notation() {
    assert_eq!(decimal_string(0), "0");
    assert_eq!(decimal_string(7), "7");
    assert_eq!(decimal_string(9), "9");
    assert_eq!(decimal_string(10), "10");
    assert_eq!(decimal_string(404), "404");
    assert_eq!(decimal_string(1000), "1000");
    assert_eq!(decimal_string(u16::MAX), "65535");
}

#[test]
fn decimal_notation_agrees_with_the_standard_library() {
    for n in 0..=u16::MAX {
        assert_eq!(decimal_string(n), format!("{}", n));
    }
}

#[test]
fn joining_text() {
    assert_eq!(join2("", ""), "");
    assert_eq!(join2("Bearer ", "tok"), "Bearer tok");
    assert_eq!(join3("a", "", "c"), "ac");
    assert_eq!(join3("x", "y", "z"), "xyz");
}
