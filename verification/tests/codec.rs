use aetherdb::decimal::{decimal, parse_u64};
use aetherdb::hex::{check_decode, decode, encode, HexCheck};
use aetherdb::ids::{uuid_to_string, DocumentId, EntityId, NodeId, RelationshipId};

#[test]
fn hex_encodes_two_lower_case_digits_per_byte() {
    assert_eq!(encode(&[]), "");
    assert_eq!(encode(&[0x00, 0x0f, 0xa5, 0xff]), "000fa5ff");
}

#[test]
fn hex_decodes_either_case() {
    assert_eq!(decode("000FA5ff").unwrap(), vec![0x00, 0x0f, 0xa5, 0xff]);
    assert_eq!(decode("").unwrap(), Vec::<u8>::new());
}

#[test]
fn hex_errors_name_the_problem() {
    assert_eq!(decode("abc").unwrap_err(), "odd length hex string");
    assert_eq!(decode("zz").unwrap_err(), "invalid digit found in string");
    assert_eq!(decode("0g").unwrap_err(), "invalid digit found in string");
}

#[test]
fn hex_accepts_a_leading_plus_in_a_pair() {
    assert_eq!(decode("+f").unwrap(), vec![0x0f]);
    assert_eq!(decode("f+").unwrap_err(), "invalid digit found in string");
}

#[test]
fn hex_roundtrip_on_every_byte() {
    let all: Vec<u8> = (0..=255u8).collect();
    assert_eq!(decode(&encode(&all)).unwrap(), all);
}

#[test]
fn decimal_writes_and_reads_numbers() {
    assert_eq!(decimal(0), "0");
    assert_eq!(decimal(1234567890), "1234567890");
    assert_eq!(decimal(u64::MAX), "18446744073709551615");
    assert_eq!(parse_u64("42"), Some(42));
    assert_eq!(parse_u64("+7"), Some(7));
    assert_eq!(parse_u64("18446744073709551615"), Some(u64::MAX));
    assert_eq!(parse_u64("18446744073709551616"), None);
    assert_eq!(parse_u64(""), None);
    assert_eq!(parse_u64("+"), None);
    assert_eq!(parse_u64("-1"), None);
    assert_eq!(parse_u64(" 1"), None);
}

#[test]
fn ids_print_as_hyphenated_uuids() {
    let u = uuid::Uuid::now_v7();
    assert_eq!(uuid_to_string(u.as_u128()), u.to_string());
    assert_eq!(DocumentId(0).to_string(), "00000000-0000-0000-0000-000000000000");
    assert_eq!(NodeId(u128::MAX).to_string(), "ffffffff-ffff-ffff-ffff-ffffffffffff");
    assert_eq!(EntityId(0xabc).to_string(), "00000000-0000-0000-0000-000000000abc");
    assert_eq!(
        RelationshipId(0x0102_0304_0506_0708_090a_0b0c_0d0e_0f10).to_string(),
        "01020304-0506-0708-090a-0b0c0d0e0f10"
    );
}

#[test]
fn decode_check_predicts_the_outcome() {
    assert_eq!(check_decode("00ff"), HexCheck::Decodes);
    assert_eq!(check_decode("0"), HexCheck::Fails);
    assert_eq!(check_decode("0z"), HexCheck::Fails);
    assert_eq!(check_decode("zéa"), HexCheck::SplitsChar);
    assert_eq!(check_decode("é0a"), HexCheck::Fails);
}
