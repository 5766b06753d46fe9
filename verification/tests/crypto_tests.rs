use consensus_recursion::crypto::{digest_to_bytes, public_values_digest, vk_digest_hex};

#[test]
fn output_digest_matches_known_vector() {
    // SHA-256 of "abc", a published test vector.
    let digest = public_values_digest(b"abc");
    let expected =
        hex::decode("ba7816bf8f01cfea414140de5dae2223b00361a396177a9cb410ff61f20015ad").unwrap();
    assert_eq!(digest.to_vec(), expected);
}

#[test]
fn output_digest_of_empty_input() {
    // SHA-256 of the empty string, a published test vector.
    let digest = public_values_digest(&[]);
    let expected =
        hex::decode("e3b0c44298fc1c149afbf4c8996fb92427ae41e4649b934ca495991b7852b855").unwrap();
    assert_eq!(digest.to_vec(), expected);
}

#[test]
fn digest_bytes_are_little_endian_per_word() {
    let bytes = digest_to_bytes(&[0x0403_0201, 0, 0, 0, 0, 0, 0, 0x0807_0605]);
    assert_eq!(&bytes[..4], &[1, 2, 3, 4]);
    assert_eq!(&bytes[4..28], &[0; 24]);
    assert_eq!(&bytes[28..], &[5, 6, 7, 8]);
    assert_eq!(bytes.len(), 32);
}

#[test]
fn vk_hex_spells_digest_bytes() {
    let hex_str = vk_digest_hex(&[1, 2, 3, 4, 5, 6, 7, 8]);
    assert_eq!(
        hex_str,
        "0x0100000002000000030000000400000005000000060000000700000008000000"
    );
}

#[test]
fn vk_hex_uses_lower_case_digits() {
    let hex_str = vk_digest_hex(&[0xAABB_CCDD; 8]);
    assert!(hex_str.starts_with("0xddccbbaa"));
    assert_eq!(hex_str.len(), 2 + 64);
}
