use document_generation_service::checksum::sha256_hex;
use document_generation_service::encoding::encode_base64;
use document_generation_service::ident::Uuid;

#[test]
fn checksum_of_known_inputs() {
    assert_eq!(
        sha256_hex(&Vec::new()),
        "e3b0c44298fc1c149afbf4c8996fb92427ae41e4649b934ca495991b7852b855"
    );
    assert_eq!(
        sha256_hex(&b"abc".to_vec()),
        "ba7816bf8f01cfea414140de5dae2223b00361a396177a9cb410ff61f20015ad"
    );
}

#[test]
fn checksum_is_sixty_four_lowercase_hex_digits() {
    let text = sha256_hex(&b"Alpha Spec".to_vec());
    assert_eq!(text.len(), 64);
    assert!(text.chars().all(|c| c.is_ascii_digit() || ('a'..='f').contains(&c)));
}

#[test]
fn checksum_depends_on_the_bytes_only() {
    let a = sha256_hex(&b"same bytes".to_vec());
    let b = sha256_hex(&b"same bytes".to_vec());
    let c = sha256_hex(&b"other bytes".to_vec());
    assert_eq!(a, b);
    assert_ne!(a, c);
}

#[test]
fn base64_of_known_inputs() {
    assert_eq!(encode_base64(&b"hello".to_vec()), Some(String::from("aGVsbG8=")));
    assert_eq!(encode_base64(&Vec::new()), Some(String::new()));
    assert_eq!(encode_base64(&vec![0xfb, 0xff]), Some(String::from("+/8=")));
    assert_eq!(encode_base64(&b"hello world~".to_vec()), Some(String::from("aGVsbG8gd29ybGR+")));
}

#[test]
fn uuid_text_is_hyphenated_lowercase() {
    let id = Uuid::from_u128(0xa1a2a3a4_b1b2_c1c2_d1d2_d3d4d5d6d7d8);
    assert_eq!(id.to_text(), "a1a2a3a4-b1b2-c1c2-d1d2-d3d4d5d6d7d8");
    assert_eq!(Uuid::from_u128(0).to_text(), "00000000-0000-0000-0000-000000000000");
    assert_eq!(Uuid::from_u128(u128::MAX).to_text(), "ffffffff-ffff-ffff-ffff-ffffffffffff");
    assert_eq!(
        Uuid::from_u128(0x0123456789abcdef_0123456789abcdef).to_text(),
        "01234567-89ab-cdef-0123-456789abcdef"
    );
    assert_eq!(id.as_u128(), 0xa1a2a3a4_b1b2_c1c2_d1d2_d3d4d5d6d7d8);
}

#[test]
fn random_uuids_differ_and_are_version_four() {
    let a = Uuid::new_v4();
    let b = Uuid::new_v4();
    assert_ne!(a, b);
    let text = a.to_text();
    assert_eq!(text.len(), 36);
    assert_eq!(text.chars().nth(14), Some('4'));
    for _ in 0..64 {
        let id = Uuid::new_v4();
        assert_eq!(
            id.as_u128() & 0xf000_c000_0000_0000_0000,
            0x4000_8000_0000_0000_0000
        );
        let variant = id.to_text().chars().nth(19).unwrap();
        assert!(['8', '9', 'a', 'b'].contains(&variant));
    }
}
