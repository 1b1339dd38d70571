use confidential_identity_v1::{compute_cdd_id, CddClaimData};
use polymesh_primitives::{CddId, IdentityId, InvestorUid};

#[test]
fn cdd_id_generation() {
    let alice_id_1 = IdentityId::from(1);
    let alice_id_2 = IdentityId::from(2);
    let alice_uid = InvestorUid::from(b"alice_uid".as_ref());

    let alice_cdd_id_1 = CddId::new(alice_id_1, alice_uid);
    let alice_cdd_id_2 = CddId::new(alice_id_2, alice_uid);

    assert!(alice_id_1 != alice_id_2);
    assert!(alice_cdd_id_1 != alice_cdd_id_2);
}

fn counting_bytes<const N: usize>(start: u8) -> [u8; N] {
    let mut b = [0u8; N];
    for (i, x) in b.iter_mut().enumerate() {
        *x = start.wrapping_add(i as u8);
    }
    b
}

#[test]
fn uid_to_bytes_gives_back_its_bytes() {
    let bytes: [u8; 16] = counting_bytes(1);
    let uid = InvestorUid::from(bytes);
    assert_eq!(uid.to_bytes(), bytes);
    assert_eq!(InvestorUid::from(uid.to_bytes()) == uid, true);
}

#[test]
fn uid_from_wide_keeps_the_first_sixteen_bytes() {
    let wide: [u8; 32] = counting_bytes(10);
    let uid = InvestorUid::from(wide);
    let expected: [u8; 16] = counting_bytes(10);
    assert_eq!(uid.to_bytes(), expected);
    assert!(uid == InvestorUid::from(&wide[..]));
}

#[test]
fn uid_from_short_slice_is_zero_padded() {
    let uid = InvestorUid::from(b"alice_uid".as_ref());
    let mut expected = [0u8; 16];
    expected[..9].copy_from_slice(b"alice_uid");
    assert_eq!(uid.to_bytes(), expected);
    assert_eq!(uid.as_slice(), &expected[..]);
}

#[test]
fn uid_from_empty_slice_is_default() {
    let uid = InvestorUid::from(&[][..]);
    assert!(uid == InvestorUid::default());
    assert_eq!(InvestorUid::default().to_bytes(), [0u8; 16]);
}

#[test]
fn uids_compare_by_bytes() {
    let a = InvestorUid::from([7u8; 16]);
    let b = InvestorUid::from([7u8; 16]);
    let mut other = [7u8; 16];
    other[15] = 8;
    let c = InvestorUid::from(other);
    assert!(a == b);
    assert!(a != c);
    assert!(a < c);
}

#[test]
fn only_the_zero_filled_cdd_id_is_default() {
    assert!(CddId::default().is_default_cdd());
    assert!(CddId::from([0u8; 32]).is_default_cdd());
    let mut one_bit = [0u8; 32];
    one_bit[31] = 1;
    assert!(!CddId::from(one_bit).is_default_cdd());
    let mut first = [0u8; 32];
    first[0] = 0x80;
    assert!(!CddId::from(first).is_default_cdd());
    assert!(CddId::from(one_bit) != CddId::default());
}

#[test]
fn cdd_id_from_bytes_keeps_them() {
    let bytes: [u8; 32] = counting_bytes(100);
    let cdd = CddId::from(bytes);
    assert_eq!(cdd.as_slice(), &bytes[..]);
    assert!(cdd == CddId::from(&bytes[..]));
}

#[test]
fn cdd_id_from_slice_pads_and_truncates() {
    let short = CddId::from(&[5u8, 6, 7][..]);
    let mut expected = [0u8; 32];
    expected[..3].copy_from_slice(&[5, 6, 7]);
    assert_eq!(short.as_slice(), &expected[..]);

    let long: [u8; 40] = counting_bytes(1);
    let truncated = CddId::from(&long[..]);
    assert_eq!(truncated.as_slice(), &long[..32]);
}

#[test]
fn identity_from_number_is_little_endian_then_zero() {
    let did = IdentityId::from(0x0102_0304_0506_0708_090a_0b0c_0d0e_0f10u128);
    let bytes = did.to_bytes();
    let expected_low: [u8; 16] = [
        0x10, 0x0f, 0x0e, 0x0d, 0x0c, 0x0b, 0x0a, 0x09, 0x08, 0x07, 0x06, 0x05, 0x04, 0x03, 0x02,
        0x01,
    ];
    assert_eq!(&bytes[..16], &expected_low[..]);
    assert_eq!(&bytes[16..], &[0u8; 16][..]);

    let mut one = [0u8; 32];
    one[0] = 1;
    assert_eq!(IdentityId::from(1).to_bytes(), one);
    assert_eq!(IdentityId::from(u128::MAX).to_bytes()[..16], [0xffu8; 16]);
}

#[test]
fn distinct_numbers_give_distinct_identities() {
    assert!(IdentityId::from(1) != IdentityId::from(2));
    assert!(IdentityId::from(1 << 64) != IdentityId::from(1));
    assert!(IdentityId::from(42) == IdentityId::from(42));
}

#[test]
fn cdd_id_is_the_commitment_of_identity_and_uid() {
    let did = IdentityId::from(7);
    let uid = InvestorUid::from(b"some investor".as_ref());
    let cdd = CddId::new(did, uid);

    let claim = CddClaimData::new(&did.to_bytes(), &uid.to_bytes());
    let expected = compute_cdd_id(&claim).compress().to_bytes();
    assert_eq!(cdd.as_slice(), &expected[..]);
    assert_ne!(cdd.as_slice(), &did.to_bytes()[..]);
    assert!(!cdd.is_default_cdd());
}

#[test]
fn cdd_id_is_determined_by_identity_and_uid() {
    let did = IdentityId::from(3);
    let uid = InvestorUid::from([9u8; 16]);
    assert!(CddId::new(did, uid) == CddId::new(did, uid));

    let other_uid = InvestorUid::from([10u8; 16]);
    assert!(CddId::new(did, uid) != CddId::new(did, other_uid));
}
