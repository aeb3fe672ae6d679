use near_lake_checkpoint::checkpoint::{
    get_synced_block_height, update_synced_block_height, CheckpointError, BLOCK_HEIGHT,
};

#[test]
fn checkpoint_key() {
    assert_eq!(BLOCK_HEIGHT, "block_height");
}

#[test]
fn absent_checkpoint_reads_as_zero() {
    assert_eq!(get_synced_block_height(None).unwrap(), 0);
}

#[test]
fn encodes_height_as_json() {
    assert_eq!(update_synced_block_height(1234), "1234");
    assert_eq!(update_synced_block_height(0), "0");
    assert_eq!(update_synced_block_height(u64::MAX), "18446744073709551615");
}

#[test]
fn set_then_get_round_trips() {
    for h in [0u64, 1, 9, 10, 1000, 82422587, u64::MAX - 1, u64::MAX] {
        let stored = update_synced_block_height(h);
        assert_eq!(get_synced_block_height(Some(stored)).unwrap(), h);
    }
}

#[test]
fn setting_twice_stores_the_same_text() {
    assert_eq!(update_synced_block_height(77), update_synced_block_height(77));
}

#[test]
fn reads_json_with_surrounding_whitespace() {
    assert_eq!(get_synced_block_height(Some(" 42\n".to_string())).unwrap(), 42);
}

#[test]
fn non_numeric_checkpoint_is_corrupt() {
    match get_synced_block_height(Some("abc".to_string())) {
        Err(CheckpointError::Corrupt { raw }) => assert_eq!(raw, "abc"),
        other => panic!("expected corrupt, got {:?}", other),
    }
}

#[test]
fn malformed_numbers_are_corrupt() {
    for bad in ["", "-1", "-0", "1.0", "1e3", "042", "+5", "\"5\"", "5 x", "18446744073709551616"] {
        assert!(
            matches!(get_synced_block_height(Some(bad.to_string())), Err(CheckpointError::Corrupt { .. })),
            "{:?} should be corrupt",
            bad
        );
    }
}
