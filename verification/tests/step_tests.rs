use consensus_recursion::checkpoint::Groth16VkeyCheckpoint;
use consensus_recursion::errors::StepError;
use consensus_recursion::headers::{LightHeader, Verdict};
use consensus_recursion::output::{encode_public_output, PublicOutput};
use consensus_recursion::step::{run_step, ProofWitness, StepInput};

fn header(height: u64, hash_byte: u8) -> LightHeader {
    LightHeader {
        height,
        time: 1_700_000_000,
        validators_hash: [0; 32],
        hash: [hash_byte; 32],
    }
}

fn genesis_input() -> StepInput {
    StepInput {
        is_upgrade: false,
        checkpoints: Vec::new(),
        genesis_hash: [9; 32],
        h1: None,
        h2: header(1, 9),
        vk_digest: [7; 8],
        prev_witness: None,
        prev_output: None,
    }
}

fn linked_input(prev: &PublicOutput, h1: LightHeader, h2: LightHeader) -> StepInput {
    StepInput {
        is_upgrade: false,
        checkpoints: prev.checkpoints.clone(),
        genesis_hash: prev.genesis_hash,
        h1: Some(h1),
        h2,
        vk_digest: prev.vk_digest,
        prev_witness: Some(ProofWitness::StarkRecursive {
            vk_digest: prev.vk_digest,
        }),
        prev_output: Some(encode_public_output(prev)),
    }
}

#[test]
fn genesis_success_ignores_verdict_and_proof() {
    // At genesis no header verification and no proof check is consulted.
    let r = run_step(genesis_input(), Verdict::NotEnoughTrust, false);
    let po = r.expect("genesis step must succeed");
    assert_eq!(po.genesis_hash, [9; 32]);
    assert_eq!(po.latest_hash, [9; 32]);
    assert_eq!(po.vk_digest, [7; 8]);
    assert!(po.checkpoints.is_empty());
}

#[test]
fn genesis_hash_mismatch_fails() {
    let mut input = genesis_input();
    input.h2 = header(1, 8);
    let r = run_step(input, Verdict::Success, true);
    assert_eq!(r, Err(StepError::GenesisMismatch));
}

#[test]
fn chain_link_succeeds_on_genuine_output() {
    let prev = run_step(genesis_input(), Verdict::Success, true).unwrap();
    let input = linked_input(&prev, header(1, 9), header(5, 11));
    let r = run_step(input, Verdict::Success, true);
    let po = r.expect("linked step must succeed");
    assert_eq!(po.genesis_hash, [9; 32]);
    assert_eq!(po.latest_hash, [11; 32]);
    assert_eq!(po.vk_digest, [7; 8]);
}

#[test]
fn header_verification_failure_is_fatal() {
    let prev = run_step(genesis_input(), Verdict::Success, true).unwrap();
    let input = linked_input(&prev, header(1, 9), header(5, 11));
    let r = run_step(input, Verdict::Invalid(String::from("bad commit")), true);
    assert_eq!(r, Err(StepError::VerificationFailed));
}

#[test]
fn malformed_previous_output_fails() {
    let prev = run_step(genesis_input(), Verdict::Success, true).unwrap();
    let mut input = linked_input(&prev, header(1, 9), header(5, 11));
    input.prev_output = Some(vec![1, 2, 3]);
    let r = run_step(input, Verdict::Success, true);
    assert_eq!(r, Err(StepError::MalformedEncoding));
}

#[test]
fn mutated_genesis_anchor_fails() {
    let prev = run_step(genesis_input(), Verdict::Success, true).unwrap();
    let mut mutated = prev.clone();
    mutated.genesis_hash = [8; 32];
    let mut input = linked_input(&prev, header(1, 9), header(5, 11));
    input.prev_output = Some(encode_public_output(&mutated));
    let r = run_step(input, Verdict::Success, true);
    assert_eq!(r, Err(StepError::GenesisMismatch));
}

#[test]
fn mutated_latest_anchor_fails() {
    let prev = run_step(genesis_input(), Verdict::Success, true).unwrap();
    let mut mutated = prev.clone();
    mutated.latest_hash = [13; 32];
    let mut input = linked_input(&prev, header(1, 9), header(5, 11));
    input.prev_output = Some(encode_public_output(&mutated));
    let r = run_step(input, Verdict::Success, true);
    assert_eq!(r, Err(StepError::ChainDiscontinuity));
}

#[test]
fn mutated_vk_digest_fails() {
    let prev = run_step(genesis_input(), Verdict::Success, true).unwrap();
    let mut mutated = prev.clone();
    mutated.vk_digest = [6; 8];
    let mut input = linked_input(&prev, header(1, 9), header(5, 11));
    input.prev_output = Some(encode_public_output(&mutated));
    let r = run_step(input, Verdict::Success, true);
    assert_eq!(r, Err(StepError::KeyContinuityViolation));
}

#[test]
fn mutated_checkpoint_list_fails() {
    let prev = run_step(genesis_input(), Verdict::Success, true).unwrap();
    let mut mutated = prev.clone();
    mutated.checkpoints.push(Groth16VkeyCheckpoint {
        block_hash: [1; 32],
        groth16_vk: None,
        program_vk_hash: [7; 8],
    });
    let mut input = linked_input(&prev, header(1, 9), header(5, 11));
    input.prev_output = Some(encode_public_output(&mutated));
    let r = run_step(input, Verdict::Success, true);
    assert_eq!(r, Err(StepError::CheckpointGrowthViolation));
}

#[test]
fn stark_check_failure_is_fatal() {
    let prev = run_step(genesis_input(), Verdict::Success, true).unwrap();
    let input = linked_input(&prev, header(1, 9), header(5, 11));
    let r = run_step(input, Verdict::Success, false);
    assert_eq!(r, Err(StepError::ProofVerificationFailed));
}

#[test]
fn wrong_witness_kind_fails_key_continuity() {
    let prev = run_step(genesis_input(), Verdict::Success, true).unwrap();
    let mut input = linked_input(&prev, header(1, 9), header(5, 11));
    input.prev_witness = Some(ProofWitness::Groth16Wrapped {
        proof_bytes: vec![1],
        vk_bytes: vec![2],
    });
    let r = run_step(input, Verdict::Success, true);
    assert_eq!(r, Err(StepError::KeyContinuityViolation));
}

/// A previous output whose checkpoint list already pins the trusted
/// header's hash, as left behind by an earlier upgrade.
fn checkpointed_prev() -> PublicOutput {
    PublicOutput {
        checkpoints: vec![Groth16VkeyCheckpoint {
            block_hash: [9; 32],
            groth16_vk: None,
            program_vk_hash: [3; 8],
        }],
        genesis_hash: [9; 32],
        latest_hash: [9; 32],
        vk_digest: [7; 8],
    }
}

#[test]
fn checkpointed_header_demands_upgrade_flag() {
    // The trusted header's hash is pinned by a candidate checkpoint, but
    // the step does not raise the upgrade flag.
    let prev = checkpointed_prev();
    let input = linked_input(&prev, header(1, 9), header(5, 11));
    let r = run_step(input, Verdict::Success, true);
    assert_eq!(r, Err(StepError::UpgradeFlagMismatch));
}

#[test]
fn upgrade_flag_off_boundary_fails() {
    let prev = run_step(genesis_input(), Verdict::Success, true).unwrap();
    let mut input = linked_input(&prev, header(1, 9), header(5, 11));
    input.is_upgrade = true;
    let r = run_step(input, Verdict::Success, true);
    assert_eq!(r, Err(StepError::UpgradeFlagMismatch));
}

#[test]
fn upgrade_without_growth_fails() {
    // Upgrade raised at a checkpointed header, but the candidate list is
    // handed over unchanged.
    let prev = checkpointed_prev();
    let mut input = linked_input(&prev, header(1, 9), header(5, 11));
    input.is_upgrade = true;
    let r = run_step(input, Verdict::Success, true);
    assert_eq!(r, Err(StepError::CheckpointGrowthViolation));
}

#[test]
fn upgrade_with_two_appended_fails() {
    let prev = run_step(genesis_input(), Verdict::Success, true).unwrap();
    let cp = Groth16VkeyCheckpoint {
        block_hash: [9; 32],
        groth16_vk: None,
        program_vk_hash: [7; 8],
    };
    let mut input = linked_input(&prev, header(1, 9), header(5, 11));
    input.is_upgrade = true;
    input.checkpoints = vec![cp.clone(), cp];
    let r = run_step(input, Verdict::Success, true);
    assert_eq!(r, Err(StepError::CheckpointGrowthViolation));
}

#[test]
fn upgrade_with_one_appended_succeeds() {
    let prev = run_step(genesis_input(), Verdict::Success, true).unwrap();
    let cp = Groth16VkeyCheckpoint {
        block_hash: [9; 32],
        groth16_vk: None,
        program_vk_hash: [7; 8],
    };
    let mut input = linked_input(&prev, header(1, 9), header(5, 11));
    input.is_upgrade = true;
    input.checkpoints = vec![cp.clone()];
    input.vk_digest = [8; 8];
    let r = run_step(input, Verdict::Success, true);
    let po = r.expect("upgrade step must succeed");
    assert_eq!(po.checkpoints, vec![cp]);
    assert_eq!(po.vk_digest, [8; 8]);
}

#[test]
fn upgrade_appended_wrong_digest_fails() {
    let prev = run_step(genesis_input(), Verdict::Success, true).unwrap();
    let cp = Groth16VkeyCheckpoint {
        block_hash: [9; 32],
        groth16_vk: None,
        program_vk_hash: [6; 8],
    };
    let mut input = linked_input(&prev, header(1, 9), header(5, 11));
    input.is_upgrade = true;
    input.checkpoints = vec![cp];
    let r = run_step(input, Verdict::Success, true);
    assert_eq!(r, Err(StepError::KeyContinuityViolation));
}

#[test]
fn upgrade_groth16_garbage_proof_fails() {
    // The appended checkpoint carries a Groth16 key, so the previous proof
    // is checked as Groth16-wrapped; garbage bytes must be rejected by the
    // real verifier.
    let prev = run_step(genesis_input(), Verdict::Success, true).unwrap();
    let cp = Groth16VkeyCheckpoint {
        block_hash: [9; 32],
        groth16_vk: Some(vec![5; 64]),
        program_vk_hash: [7; 8],
    };
    let mut input = linked_input(&prev, header(1, 9), header(5, 11));
    input.is_upgrade = true;
    input.checkpoints = vec![cp];
    input.prev_witness = Some(ProofWitness::Groth16Wrapped {
        proof_bytes: vec![0xAB; 200],
        vk_bytes: vec![5; 64],
    });
    let r = run_step(input, Verdict::Success, true);
    assert_eq!(r, Err(StepError::ProofVerificationFailed));
}

#[test]
fn upgrade_groth16_witness_key_mismatch_fails() {
    let prev = run_step(genesis_input(), Verdict::Success, true).unwrap();
    let cp = Groth16VkeyCheckpoint {
        block_hash: [9; 32],
        groth16_vk: Some(vec![5; 64]),
        program_vk_hash: [7; 8],
    };
    let mut input = linked_input(&prev, header(1, 9), header(5, 11));
    input.is_upgrade = true;
    input.checkpoints = vec![cp];
    input.prev_witness = Some(ProofWitness::Groth16Wrapped {
        proof_bytes: vec![0xAB; 200],
        vk_bytes: vec![6; 64],
    });
    let r = run_step(input, Verdict::Success, true);
    assert_eq!(r, Err(StepError::ProofVerificationFailed));
}
