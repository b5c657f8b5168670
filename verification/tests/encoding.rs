use ocr_boundary::encoding::find_nul;
use ocr_boundary::report::{append_decimal, append_listed, render_nul_report};
use ocr_boundary::message::{check_text, classification_failure_message, init_failure_message,
    internal_fault_message, null_pointer_message, zero_length_message};

fn decimal(n: usize) -> String {
    let mut out = String::new();
    append_decimal(&mut out, n);
    out
}

fn listed(bytes: &[u8]) -> String {
    let mut out = String::new();
    append_listed(&mut out, bytes);
    out
}

#[test]
fn find_nul_in_empty_bytes() {
    assert_eq!(find_nul(&[]), None);
}

#[test]
fn find_nul_without_terminator() {
    assert_eq!(find_nul(&[1, 2, 3, 255]), None);
    assert_eq!(find_nul("3n3d".as_bytes()), None);
}

#[test]
fn find_nul_gives_the_first_place() {
    assert_eq!(find_nul(&[0]), Some(0));
    assert_eq!(find_nul(&[0, 0, 0]), Some(0));
    assert_eq!(find_nul(&[7, 0, 9, 0]), Some(1));
    assert_eq!(find_nul(&[7, 8, 9, 0]), Some(3));
}

#[test]
fn decimal_of_single_digits() {
    let expected = ["0", "1", "2", "3", "4", "5", "6", "7", "8", "9"];
    for (n, text) in expected.iter().enumerate() {
        assert_eq!(decimal(n), *text);
    }
}

#[test]
fn decimal_of_larger_numbers() {
    assert_eq!(decimal(10), "10");
    assert_eq!(decimal(99), "99");
    assert_eq!(decimal(100), "100");
    assert_eq!(decimal(255), "255");
    assert_eq!(decimal(1_000_000), "1000000");
    assert_eq!(decimal(9_876_543_210), "9876543210");
}

#[test]
fn decimal_agrees_with_the_standard_numerals() {
    for n in (0..5000usize).chain([65_535, 65_536, 4_294_967_295, usize::MAX]) {
        assert_eq!(decimal(n), format!("{}", n));
    }
}

#[test]
fn decimal_appends_to_what_is_there() {
    let mut out = String::from("at ");
    append_decimal(&mut out, 42);
    append_decimal(&mut out, 0);
    assert_eq!(out, "at 420");
}

#[test]
fn listed_bytes() {
    assert_eq!(listed(&[]), "");
    assert_eq!(listed(&[0]), "0");
    assert_eq!(listed(&[97, 98]), "97, 98");
    assert_eq!(listed(&[255, 0, 10, 7]), "255, 0, 10, 7");
}

#[test]
fn listed_appends_to_what_is_there() {
    let mut out = String::from("[");
    append_listed(&mut out, &[1, 2, 3]);
    assert_eq!(out, "[1, 2, 3");
}

#[test]
fn nul_report_names_place_and_bytes() {
    assert_eq!(render_nul_report(2, &[97, 98, 0, 99]), "NulError(2, [97, 98, 0, 99])");
    assert_eq!(render_nul_report(0, &[0]), "NulError(0, [0])");
    assert_eq!(render_nul_report(12, &[]), "NulError(12, [])");
}

#[test]
fn check_text_hands_back_a_text_without_terminator() {
    for text in ["", "a", "3n3d", "消息", "tab\tand\nnewline"] {
        assert_eq!(check_text(String::from(text)), Ok(String::from(text)));
    }
}

#[test]
fn check_text_reports_a_text_with_terminator() {
    assert_eq!(
        check_text(String::from("ab\0c")),
        Err(String::from("CString error: NulError(2, [97, 98, 0, 99])"))
    );
    assert_eq!(
        check_text(String::from("\0\0")),
        Err(String::from("CString error: NulError(0, [0, 0])"))
    );
}

#[test]
fn check_text_reports_place_and_bytes_of_longer_texts() {
    assert_eq!(
        check_text(String::from("end\0")),
        Err(String::from("CString error: NulError(3, [101, 110, 100, 0])"))
    );
    assert_eq!(
        check_text(String::from("消\0息")),
        Err(String::from("CString error: NulError(3, [230, 182, 136, 0, 230, 129, 175])"))
    );
    assert_eq!(
        check_text(String::from("\u{7f}\u{80}\0")),
        Err(String::from("CString error: NulError(3, [127, 194, 128, 0])"))
    );
}

#[test]
fn fixed_messages() {
    assert_eq!(null_pointer_message(), "image pointer is null");
    assert_eq!(zero_length_message(), "image length is 0");
    assert_eq!(internal_fault_message(None), "internal fault: unknown");
}

#[test]
fn messages_with_detail() {
    assert_eq!(init_failure_message("no model"), "OCR init failed: no model");
    assert_eq!(init_failure_message(""), "OCR init failed: ");
    assert_eq!(classification_failure_message("bad image"), "classification error: bad image");
    assert_eq!(
        internal_fault_message(Some(String::from("overflow"))),
        "internal fault: overflow"
    );
    assert_eq!(internal_fault_message(Some(String::new())), "internal fault: ");
}
