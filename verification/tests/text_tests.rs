use shotmd::commands::capture_command::embed_file;
use shotmd::text::{concat_str, decimal_string, html_image_embed, join_strings, signed_decimal_string, timestamped_file_name};

#[test]
fn decimal_of_zero_and_large_numbers() {
    assert_eq!(decimal_string(0), "0");
    assert_eq!(decimal_string(7), "7");
    assert_eq!(decimal_string(10), "10");
    assert_eq!(decimal_string(1234567890), "1234567890");
    assert_eq!(decimal_string(u64::MAX), u64::MAX.to_string());
}

#[test]
fn signed_decimal_matches_format() {
    assert_eq!(signed_decimal_string(0), "0");
    assert_eq!(signed_decimal_string(30), "30");
    assert_eq!(signed_decimal_string(-42), "-42");
    assert_eq!(signed_decimal_string(i32::MIN), "-2147483648");
    assert_eq!(signed_decimal_string(i32::MAX), "2147483647");
}

#[test]
fn file_names_carry_stem_timestamp_and_extension() {
    assert_eq!(timestamped_file_name("shotmd", 1700000000, "png"), "shotmd-1700000000.png");
    assert_eq!(timestamped_file_name("shot", 0, "png"), "shot-0.png");
}

#[test]
fn distinct_timestamps_give_distinct_names() {
    let a = timestamped_file_name("shotmd", 99, "jpg");
    let b = timestamped_file_name("shotmd", 100, "jpg");
    assert_ne!(a, b);
}

#[test]
fn html_embed_wraps_payload() {
    assert_eq!(
        html_image_embed("image/png", "QUJD"),
        "<img src=\"data:image/png;base64,QUJD\" />"
    );
}

fn payload(bytes: &[u8]) -> String {
    let html = embed_file("x", &bytes.to_vec());
    html["<img src=\"data:x;base64,".len()..html.len() - "\" />".len()].to_string()
}

#[test]
fn base64_standard_with_padding() {
    assert_eq!(payload(b"hello"), "aGVsbG8=");
    assert_eq!(payload(b"hell"), "aGVsbA==");
    assert_eq!(payload(b"hel"), "aGVs");
    assert_eq!(payload(b""), "");
    assert_eq!(payload(&[0xfb, 0xff]), "+/8=");
}

#[test]
fn join_puts_separator_between_items() {
    let items = vec!["a: x".to_string(), "b: y".to_string(), "c".to_string()];
    assert_eq!(join_strings(&items, "; "), "a: x; b: y; c");
    assert_eq!(join_strings(&vec!["only".to_string()], "; "), "only");
    assert_eq!(join_strings(&Vec::new(), "; "), "");
}

#[test]
fn concat_joins_two_texts() {
    assert_eq!(concat_str("Save failed: ", "disk full"), "Save failed: disk full");
}
