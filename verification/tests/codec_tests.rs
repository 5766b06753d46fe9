use consensus_recursion::checkpoint::Groth16VkeyCheckpoint;
use consensus_recursion::codec::{
    encode_checkpoint, encode_checkpoints, encode_digest, encode_u32, encode_u64, Buffer,
};
use consensus_recursion::output::{encode_public_output, PublicOutput};

fn sample_checkpoint(tag: u8, vk: Option<Vec<u8>>, word: u32) -> Groth16VkeyCheckpoint {
    Groth16VkeyCheckpoint {
        block_hash: [tag; 32],
        groth16_vk: vk,
        program_vk_hash: [word; 8],
    }
}

#[test]
fn u32_round_trip() {
    let mut out: Vec<u8> = Vec::new();
    encode_u32(&mut out, 0xDEAD_BEEF);
    assert_eq!(out, vec![0xEF, 0xBE, 0xAD, 0xDE]);
    let mut buf = Buffer::from(&out);
    assert_eq!(buf.read_u32(), Some(0xDEAD_BEEF));
    assert_eq!(buf.read_u32(), None);
}

#[test]
fn u64_round_trip() {
    let mut out: Vec<u8> = Vec::new();
    encode_u64(&mut out, 0x0102_0304_0506_0708);
    assert_eq!(out, vec![8, 7, 6, 5, 4, 3, 2, 1]);
    let mut buf = Buffer::from(&out);
    assert_eq!(buf.read_u64(), Some(0x0102_0304_0506_0708));
}

#[test]
fn three_values_in_order_round_trip() {
    // Writing values in order and reading them back in the same order
    // yields bit-identical values.
    let mut out: Vec<u8> = Vec::new();
    encode_u32(&mut out, 7);
    encode_u64(&mut out, u64::MAX);
    encode_digest(&mut out, &[9, 8, 7, 6, 5, 4, 3, 2]);
    let mut buf = Buffer::from(&out);
    assert_eq!(buf.read_u32(), Some(7));
    assert_eq!(buf.read_u64(), Some(u64::MAX));
    assert_eq!(buf.read_digest(), Some([9, 8, 7, 6, 5, 4, 3, 2]));
    assert_eq!(buf.read_u32(), None);
}

#[test]
fn mismatched_size_read_fails() {
    // A 32-bit value was written; reading it back with a 64-bit type
    // fails explicitly instead of yielding data.
    let mut out: Vec<u8> = Vec::new();
    encode_u32(&mut out, 7);
    let mut buf = Buffer::from(&out);
    assert_eq!(buf.read_u64(), None);
    // The failed read leaves the cursor where it was.
    assert_eq!(buf.read_u32(), Some(7));
}

#[test]
fn read_past_end_fails() {
    let bytes: Vec<u8> = vec![1, 2, 3];
    let mut buf = Buffer::from(&bytes);
    assert_eq!(buf.read_bytes32(), None);
    assert_eq!(buf.read_digest(), None);
    assert_eq!(buf.read_len_bytes(), None);
}

#[test]
fn bad_option_tag_fails() {
    let bytes: Vec<u8> = vec![2, 0, 0];
    let mut buf = Buffer::from(&bytes);
    assert_eq!(buf.read_opt_bytes(), None);
}

#[test]
fn option_round_trip() {
    let cp_none = sample_checkpoint(3, None, 11);
    let cp_some = sample_checkpoint(4, Some(vec![1, 2, 3]), 12);
    let mut out: Vec<u8> = Vec::new();
    encode_checkpoint(&mut out, &cp_none);
    encode_checkpoint(&mut out, &cp_some);
    let mut buf = Buffer::from(&out);
    assert_eq!(buf.read_checkpoint(), Some(cp_none));
    assert_eq!(buf.read_checkpoint(), Some(cp_some));
    assert_eq!(buf.read_checkpoint(), None);
}

#[test]
fn checkpoint_list_round_trip() {
    let cps = vec![
        sample_checkpoint(1, None, 5),
        sample_checkpoint(2, Some(vec![9; 40]), 6),
    ];
    let mut out: Vec<u8> = Vec::new();
    encode_checkpoints(&mut out, &cps);
    let mut buf = Buffer::from(&out);
    assert_eq!(buf.read_checkpoints(), Some(cps));
}

#[test]
fn empty_checkpoint_list_round_trip() {
    let cps: Vec<Groth16VkeyCheckpoint> = Vec::new();
    let mut out: Vec<u8> = Vec::new();
    encode_checkpoints(&mut out, &cps);
    assert_eq!(out, vec![0; 8]);
    let mut buf = Buffer::from(&out);
    assert_eq!(buf.read_checkpoints(), Some(Vec::new()));
}

#[test]
fn insane_checkpoint_count_fails() {
    // A huge count with no checkpoints behind it is malformed, not a hang.
    let mut out: Vec<u8> = Vec::new();
    encode_u64(&mut out, u64::MAX);
    let mut buf = Buffer::from(&out);
    assert_eq!(buf.read_checkpoints(), None);
}

#[test]
fn public_output_round_trip() {
    let po = PublicOutput {
        checkpoints: vec![sample_checkpoint(1, Some(vec![7, 7]), 42)],
        genesis_hash: [10; 32],
        latest_hash: [11; 32],
        vk_digest: [1, 2, 3, 4, 5, 6, 7, 8],
    };
    let bytes = encode_public_output(&po);
    let mut buf = Buffer::from(&bytes);
    assert_eq!(buf.read_public_output(), Some(po));
}

#[test]
fn public_output_trailing_bytes_tolerated() {
    let po = PublicOutput {
        checkpoints: Vec::new(),
        genesis_hash: [1; 32],
        latest_hash: [2; 32],
        vk_digest: [0; 8],
    };
    let mut bytes = encode_public_output(&po);
    bytes.push(0xFF);
    let mut buf = Buffer::from(&bytes);
    assert_eq!(buf.read_public_output(), Some(po));
}

#[test]
fn truncated_public_output_fails() {
    let po = PublicOutput {
        checkpoints: Vec::new(),
        genesis_hash: [1; 32],
        latest_hash: [2; 32],
        vk_digest: [0; 8],
    };
    let bytes = encode_public_output(&po);
    let truncated = &bytes[..bytes.len() - 1];
    let mut buf = Buffer::from(truncated);
    assert_eq!(buf.read_public_output(), None);
    // The failed read leaves the cursor at the start.
    assert_eq!(buf.ptr, 0);
}
