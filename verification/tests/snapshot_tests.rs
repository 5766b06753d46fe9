use consensus_recursion::snapshots::snapshot_height;

#[test]
fn plain_heights_parse() {
    assert_eq!(snapshot_height("block_1.json"), Some(1));
    assert_eq!(snapshot_height("block_123.json"), Some(123));
    assert_eq!(snapshot_height("block_0.json"), Some(0));
}

#[test]
fn leading_zeros_parse() {
    assert_eq!(snapshot_height("block_007.json"), Some(7));
}

#[test]
fn largest_height_parses() {
    assert_eq!(
        snapshot_height("block_18446744073709551615.json"),
        Some(u64::MAX)
    );
}

#[test]
fn overflowing_height_is_rejected() {
    assert_eq!(snapshot_height("block_18446744073709551616.json"), None);
    assert_eq!(snapshot_height("block_99999999999999999999.json"), None);
}

#[test]
fn wrong_prefix_is_rejected() {
    assert_eq!(snapshot_height("header_5.json"), None);
    assert_eq!(snapshot_height("blocks_5.json"), None);
}

#[test]
fn wrong_suffix_is_rejected() {
    assert_eq!(snapshot_height("block_5.txt"), None);
    assert_eq!(snapshot_height("block_5.jsonx"), None);
}

#[test]
fn missing_or_bad_digits_are_rejected() {
    assert_eq!(snapshot_height("block_.json"), None);
    assert_eq!(snapshot_height("block_12a.json"), None);
    assert_eq!(snapshot_height("block_-1.json"), None);
    assert_eq!(snapshot_height(""), None);
}
