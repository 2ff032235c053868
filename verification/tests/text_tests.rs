//! The wire text conventions: decimal strings for integers, canonical uuid
//! text for ids, and the double-bits reconstruction of integral values.

use pccg_storage::double::{double_bits_from_i32, DoubleBits};
use pccg_storage::id::Id;
use pccg_storage::text::{
    check_uuid_text, i64_to_dec_string, parse_i32_dec, parse_i64_dec, parse_u16_dec,
    parse_u32_dec, parse_u64_dec, str_eq, trailing_segment, u64_to_dec_string,
};

#[test]
fn decimal_formatting_matches_std() {
    for v in [0u64, 1, 9, 10, 99, 100, 12345, u64::MAX] {
        assert_eq!(u64_to_dec_string(v), v.to_string());
    }
    for v in [0i64, 7, -1, -10, 300, i64::MIN, i64::MAX] {
        assert_eq!(i64_to_dec_string(v), v.to_string());
    }
}

#[test]
fn decimal_parsing_matches_std() {
    for s in [
        "0", "1", "42", "007", "+5", "-0", "-5", "", "abc", "1.5", " 1", "18446744073709551615",
        "18446744073709551616", "9223372036854775807", "9223372036854775808",
        "-9223372036854775808", "-9223372036854775809",
    ] {
        assert_eq!(parse_u64_dec(s), s.parse::<u64>().ok(), "u64 {:?}", s);
        assert_eq!(parse_i64_dec(s), s.parse::<i64>().ok(), "i64 {:?}", s);
        assert_eq!(parse_i32_dec(s), s.parse::<i32>().ok(), "i32 {:?}", s);
        assert_eq!(parse_u32_dec(s), s.parse::<u32>().ok(), "u32 {:?}", s);
        assert_eq!(parse_u16_dec(s), s.parse::<u16>().ok(), "u16 {:?}", s);
    }
}

#[test]
fn uuid_text_is_checked_strictly() {
    assert!(check_uuid_text("00000000-0000-0000-0000-000000000000"));
    assert!(check_uuid_text("8f2b4a1c-3d5e-4f60-9a7b-0c1d2e3f4a5b"));
    assert!(!check_uuid_text(""));
    assert!(!check_uuid_text("8f2b4a1c-3d5e-4f60-9a7b-0c1d2e3f4a5"));
    assert!(!check_uuid_text("8f2b4a1c-3d5e-4f60-9a7b-0c1d2e3f4a5bb"));
    assert!(!check_uuid_text("8F2B4A1C-3D5E-4F60-9A7B-0C1D2E3F4A5B"));
    assert!(!check_uuid_text("8f2b4a1c 3d5e 4f60 9a7b 0c1d2e3f4a5b"));
    assert!(!check_uuid_text("{8f2b4a1c-3d5e-4f60-9a7b-0c1d2e3f4a5b}"));
    assert!(Id::parse("8f2b4a1c-3d5e-4f60-9a7b-0c1d2e3f4a5b").is_some());
    assert!(Id::parse("urn:uuid:8f2b4a1c-3d5e-4f60-9a7b-0c1d2e3f4a5b").is_none());
}

#[test]
fn trailing_segment_is_the_id_part() {
    assert_eq!(
        trailing_segment("projects/p/databases/(default)/documents/users/abc"),
        "abc".to_owned()
    );
    assert_eq!(trailing_segment("abc"), "abc".to_owned());
    assert_eq!(trailing_segment("abc/"), "".to_owned());
    assert_eq!(trailing_segment(""), "".to_owned());
}

#[test]
fn str_eq_is_character_equality() {
    assert!(str_eq("", ""));
    assert!(str_eq("abc", "abc"));
    assert!(!str_eq("abc", "abd"));
    assert!(!str_eq("abc", "abcd"));
}

#[test]
fn double_bits_of_integers_match_ieee() {
    for v in [
        0i32, 1, 2, 3, 8, 100, 1023, 1024, 123456789, i32::MAX, -1, -2, -7, -65536, i32::MIN,
    ] {
        let expected = (v as f64).to_bits();
        assert_eq!(double_bits_from_i32(v), DoubleBits { bits: expected }, "bits of {}", v);
    }
}
