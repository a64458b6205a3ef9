use ars::fmt::slice::{render_parts, u64_to_string, FmtSlice};

#[test]
fn test_fmt_array_with_to_string() {
    let array: [u64; 3] = [1, 2, 3];
    let formatted = FmtSlice(&array);
    assert_eq!(formatted.to_text(), String::from("[1, 2, 3]"));
}

#[test]
fn test_fmt_array_with_format_macro() {
    let array: [u64; 3] = [1, 2, 3];
    let formatted = FmtSlice(&array);
    assert_eq!(format!("{}", formatted.to_text()), "[1, 2, 3]");
}

#[test]
fn test_fmt_vec_with_to_string() {
    let vec: Vec<u64> = vec![1, 2, 3];
    let formatted = FmtSlice(&vec);
    assert_eq!(formatted.to_text(), String::from("[1, 2, 3]"));
}

#[test]
fn test_fmt_vec_with_format_macro() {
    let vec: Vec<u64> = vec![1, 2, 3];
    let formatted = FmtSlice(&vec);
    assert_eq!(format!("{}", formatted.to_text()), "[1, 2, 3]");
}

#[test]
fn fmt_empty_slice() {
    let array: [u64; 0] = [];
    let formatted = FmtSlice(&array);
    assert_eq!(formatted.to_text(), "[]");
}

#[test]
fn fmt_single_element() {
    let array: [u64; 1] = [42];
    let formatted = FmtSlice(&array);
    assert_eq!(formatted.to_text(), "[42]");
}

#[test]
fn fmt_other_values() {
    let vec: Vec<u64> = vec![4, 5, 6];
    let formatted = FmtSlice(&vec);
    assert_eq!(formatted.to_text(), "[4, 5, 6]");
}

#[test]
fn decimal_rendering_exact_values() {
    assert_eq!(u64_to_string(0), "0");
    assert_eq!(u64_to_string(7), "7");
    assert_eq!(u64_to_string(10), "10");
    assert_eq!(u64_to_string(12345), "12345");
    assert_eq!(u64_to_string(1000), "1000");
    assert_eq!(u64_to_string(u64::MAX), "18446744073709551615");
}

#[test]
fn render_parts_joins_and_brackets() {
    let none: Vec<String> = vec![];
    assert_eq!(render_parts(&none), "[]");
    let one = vec![String::from("a")];
    assert_eq!(render_parts(&one), "[a]");
    let three = vec![String::from("x"), String::from("yz"), String::from("")];
    assert_eq!(render_parts(&three), "[x, yz, ]");
}

#[test]
fn as_slice_is_transparent() {
    let array: [u64; 3] = [1, 2, 3];
    let formatted = FmtSlice(&array);
    assert_eq!(formatted.as_slice(), &array);
    assert_eq!(formatted.as_slice().len(), 3);
    assert_eq!(formatted.as_slice()[1], 2);
}
