use do_ssh::text::decimal_string;
use do_ssh::text::utf8_bytes;

#[test]
fn decimal_of_single_digits() {
    for (n, text) in [(0u64, "0"), (1, "1"), (5, "5"), (9, "9")] {
        assert_eq!(decimal_string(n), text);
    }
}

#[test]
fn decimal_has_no_leading_zeros() {
    assert_eq!(decimal_string(10), "10");
    assert_eq!(decimal_string(22), "22");
    assert_eq!(decimal_string(100), "100");
    assert_eq!(decimal_string(1005), "1005");
    assert_eq!(decimal_string(8080), "8080");
    assert_eq!(decimal_string(65535), "65535");
}

#[test]
fn decimal_of_the_largest_number() {
    assert_eq!(decimal_string(u64::MAX), "18446744073709551615");
}

#[test]
fn decimal_agrees_with_the_standard_rendering() {
    for n in 0..=70000u64 {
        assert_eq!(decimal_string(n), n.to_string());
    }
}

#[test]
fn utf8_bytes_of_plain_text() {
    assert_eq!(utf8_bytes("locked port: 80"), b"locked port: 80".to_vec());
    assert_eq!(utf8_bytes(""), Vec::<u8>::new());
}

#[test]
fn utf8_bytes_of_wide_characters() {
    assert_eq!(utf8_bytes("é"), vec![0xc3, 0xa9]);
    assert_eq!(utf8_bytes("€"), vec![0xe2, 0x82, 0xac]);
    assert_eq!(utf8_bytes("𝄞"), vec![0xf0, 0x9d, 0x84, 0x9e]);
}
