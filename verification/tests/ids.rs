use league_store::ids::Uuid;

#[test]
fn nil_identifier_is_all_zero_digits() {
    assert_eq!(Uuid::nil().to_string(), "00000000-0000-0000-0000-000000000000");
    assert_eq!(Uuid::nil().as_u128(), 0);
}

#[test]
fn text_is_hyphenated_lower_case_hex() {
    let id = Uuid::from_u128(0xa1a2a3a4b1b2c1c2d1d2d3d4d5d6d7d8);
    assert_eq!(id.to_string(), "a1a2a3a4-b1b2-c1c2-d1d2-d3d4d5d6d7d8");
    let id = Uuid::from_u128(0x0123456789ABCDEF0123456789ABCDEF);
    assert_eq!(id.to_string(), "01234567-89ab-cdef-0123-456789abcdef");
    let id = Uuid::from_u128(1);
    assert_eq!(id.to_string(), "00000000-0000-0000-0000-000000000001");
}

#[test]
fn text_agrees_with_the_uuid_crate() {
    let bits = 0x550e8400e29b41d4a716446655440000u128;
    assert_eq!(Uuid::from_u128(bits).to_string(), uuid::Uuid::from_u128(bits).to_string());
}

#[test]
fn random_identifier_carries_version_and_variant() {
    for _ in 0..64 {
        let id = Uuid::new_v4();
        assert_eq!((id.bits >> 76) & 0xf, 4);
        assert_eq!((id.bits >> 62) & 0x3, 2);
        assert_eq!(
            id.bits & 0x0000_0000_0000_f000_c000_0000_0000_0000,
            0x0000_0000_0000_4000_8000_0000_0000_0000
        );
        let text = id.to_string();
        assert_eq!(text.len(), 36);
        assert_eq!(text.as_bytes()[14], b'4');
    }
}

#[test]
fn random_identifiers_differ() {
    let a = Uuid::new_v4();
    let b = Uuid::new_v4();
    assert_ne!(a, b);
}

#[test]
fn identifiers_compare_by_their_bits() {
    assert_eq!(Uuid::from_u128(7), Uuid::from_u128(7));
    assert_ne!(Uuid::from_u128(7), Uuid::from_u128(8));
    assert_eq!(Uuid::from_u128(0), Uuid::nil());
}
