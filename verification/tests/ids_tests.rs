use sinan_backend::ids::uuid_text;

#[test]
fn uuid_text_matches_the_uuid_crate() {
    for v in [0u128, 1, u128::MAX, 0x67e5504410b1426f9247bb680e5fe0c8, 0x0123456789abcdef0011223344556677] {
        assert_eq!(uuid_text(v), uuid::Uuid::from_u128(v).to_string());
    }
    for _ in 0..20 {
        let id = uuid::Uuid::new_v4();
        assert_eq!(uuid_text(id.as_u128()), id.to_string());
    }
}
