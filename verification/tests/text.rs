use power_assert_plugin::text::{decimal_string, join_strings, string_is};

#[test]
fn decimal_numbers() {
    assert_eq!(decimal_string(0), "0");
    assert_eq!(decimal_string(7), "7");
    assert_eq!(decimal_string(10), "10");
    assert_eq!(decimal_string(1234509), "1234509");
    assert_eq!(decimal_string(usize::MAX), usize::MAX.to_string());
}

#[test]
fn joined_paths() {
    assert_eq!(join_strings(&vec![], "/"), "");
    assert_eq!(join_strings(&vec!["arguments/0".to_string()], "/"), "arguments/0");
    assert_eq!(
        join_strings(&vec!["arguments/0".to_string(), "left".to_string(), "object".to_string()], "/"),
        "arguments/0/left/object"
    );
}

#[test]
fn exact_text() {
    assert!(string_is(&"assert".to_string(), "assert"));
    assert!(!string_is(&"assert ".to_string(), "assert"));
    assert!(!string_is(&"".to_string(), "assert"));
}
