use consensus_recursion::checkpoint::{
    is_upgrade_boundary, validate_growth, Groth16VkeyCheckpoint,
};
use consensus_recursion::errors::StepError;

fn cp(tag: u8, word: u32) -> Groth16VkeyCheckpoint {
    Groth16VkeyCheckpoint {
        block_hash: [tag; 32],
        groth16_vk: None,
        program_vk_hash: [word; 8],
    }
}

#[test]
fn boundary_is_exact_hash_membership() {
    let cps = vec![cp(1, 10), cp(2, 20)];
    assert!(is_upgrade_boundary(&[1; 32], &cps));
    assert!(is_upgrade_boundary(&[2; 32], &cps));
    assert!(!is_upgrade_boundary(&[3; 32], &cps));
    assert!(!is_upgrade_boundary(&[1; 32], &Vec::new()));
}

#[test]
fn growth_of_exactly_one_is_accepted() {
    let old_list = vec![cp(1, 10)];
    let new_list = vec![cp(1, 10), cp(2, 20)];
    let appended = validate_growth(&old_list, &new_list, &[20; 8]).expect("growth must validate");
    assert_eq!(*appended, cp(2, 20));
}

#[test]
fn zero_appended_entries_rejected() {
    // An upgrade was requested but the list did not grow.
    let old_list = vec![cp(1, 10)];
    let new_list = vec![cp(1, 10)];
    let r = validate_growth(&old_list, &new_list, &[10; 8]);
    assert_eq!(r, Err(StepError::CheckpointGrowthViolation));
}

#[test]
fn two_appended_entries_rejected() {
    let old_list = vec![cp(1, 10)];
    let new_list = vec![cp(1, 10), cp(2, 20), cp(3, 30)];
    let r = validate_growth(&old_list, &new_list, &[20; 8]);
    assert_eq!(r, Err(StepError::CheckpointGrowthViolation));
}

#[test]
fn rewritten_prefix_rejected() {
    // The new list has the right length but rewrites history instead of
    // appending.
    let old_list = vec![cp(1, 10)];
    let new_list = vec![cp(9, 10), cp(2, 20)];
    let r = validate_growth(&old_list, &new_list, &[20; 8]);
    assert_eq!(r, Err(StepError::CheckpointGrowthViolation));
}

#[test]
fn appended_digest_mismatch_rejected() {
    let old_list = vec![cp(1, 10)];
    let new_list = vec![cp(1, 10), cp(2, 20)];
    let r = validate_growth(&old_list, &new_list, &[21; 8]);
    assert_eq!(r, Err(StepError::KeyContinuityViolation));
}

#[test]
fn growth_from_empty_list_accepted() {
    let old_list: Vec<Groth16VkeyCheckpoint> = Vec::new();
    let new_list = vec![cp(5, 50)];
    let appended = validate_growth(&old_list, &new_list, &[50; 8]).expect("growth must validate");
    assert_eq!(*appended, cp(5, 50));
}
