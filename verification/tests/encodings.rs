use privacy_contracts::encoding::{append_bytes32, append_i64_le, append_u64_le};
use privacy_contracts::keys::{bytes32_eq, Pubkey};

#[test]
fn u64_is_appended_least_significant_byte_first() {
    let mut out = vec![9u8];
    append_u64_le(&mut out, 0x0102_0304_0506_0708);
    assert_eq!(out, vec![9, 8, 7, 6, 5, 4, 3, 2, 1]);
}

#[test]
fn u64_encoding_matches_the_standard_one() {
    for value in [0u64, 1, 255, 256, 1_000, 1 << 32, u64::MAX - 1, u64::MAX] {
        let mut out = Vec::new();
        append_u64_le(&mut out, value);
        assert_eq!(out, value.to_le_bytes().to_vec());
    }
}

#[test]
fn i64_is_appended_in_twos_complement() {
    let mut out = Vec::new();
    append_i64_le(&mut out, -1);
    assert_eq!(out, vec![255u8; 8]);
    let mut out = Vec::new();
    append_i64_le(&mut out, -2);
    assert_eq!(out, vec![254, 255, 255, 255, 255, 255, 255, 255]);
    let mut out = Vec::new();
    append_i64_le(&mut out, i64::MIN);
    assert_eq!(out, vec![0, 0, 0, 0, 0, 0, 0, 128]);
}

#[test]
fn i64_encoding_matches_the_standard_one() {
    for value in [0i64, 1, -1, 1_700_000_000, -1_700_000_000, i64::MAX, i64::MIN, i64::MIN + 1] {
        let mut out = vec![1u8, 2];
        append_i64_le(&mut out, value);
        let mut expected = vec![1u8, 2];
        expected.extend_from_slice(&value.to_le_bytes());
        assert_eq!(out, expected);
    }
}

#[test]
fn bytes32_are_appended_in_order() {
    let mut bytes = [0u8; 32];
    for (i, byte) in bytes.iter_mut().enumerate() {
        *byte = i as u8;
    }
    let mut out = vec![77u8];
    append_bytes32(&mut out, &bytes);
    assert_eq!(out.len(), 33);
    assert_eq!(out[0], 77);
    assert_eq!(&out[1..], &bytes[..]);
}

#[test]
fn bytes32_eq_compares_every_byte() {
    let a = [5u8; 32];
    let mut b = [5u8; 32];
    assert!(bytes32_eq(&a, &b));
    b[31] = 6;
    assert!(!bytes32_eq(&a, &b));
    b[31] = 5;
    b[0] = 4;
    assert!(!bytes32_eq(&a, &b));
}

#[test]
fn pubkeys_are_the_same_when_their_bytes_are() {
    let a = Pubkey { bytes: [1u8; 32] };
    let b = Pubkey { bytes: [1u8; 32] };
    let mut other = [1u8; 32];
    other[16] = 2;
    let c = Pubkey { bytes: other };
    assert!(a.same(&b));
    assert!(!a.same(&c));
}
