use consensus_recursion::headers::{verification_time, LightHeader, Verdict, VerificationOptions};
use consensus_recursion::step::ProofWitness;
use consensus_recursion::checkpoint::ProofType;

fn header_at(time: u64) -> LightHeader {
    LightHeader {
        height: 1,
        time,
        validators_hash: [0; 32],
        hash: [0; 32],
    }
}

#[test]
fn verification_time_adds_buffer() {
    assert_eq!(verification_time(&header_at(1_700_000_000)), Some(1_700_000_020));
}

#[test]
fn verification_time_overflow_is_rejected() {
    assert_eq!(verification_time(&header_at(u64::MAX)), None);
    assert_eq!(verification_time(&header_at(u64::MAX - 20)), Some(u64::MAX));
}

#[test]
fn only_success_accepts() {
    assert!(Verdict::Success.accepts());
    assert!(!Verdict::NotEnoughTrust.accepts());
    assert!(!Verdict::Invalid(String::from("expired")).accepts());
}

#[test]
fn standard_options_use_two_week_trusting_period() {
    let opt = VerificationOptions::default();
    assert_eq!(opt.trust_threshold_num, 1);
    assert_eq!(opt.trust_threshold_den, 3);
    assert_eq!(opt.trusting_period_secs, 14 * 24 * 60 * 60);
    assert_eq!(opt.clock_drift_secs, 0);
}

#[test]
fn witness_kinds() {
    let stark = ProofWitness::StarkRecursive { vk_digest: [0; 8] };
    let wrapped = ProofWitness::Groth16Wrapped {
        proof_bytes: Vec::new(),
        vk_bytes: Vec::new(),
    };
    assert_eq!(stark.kind(), ProofType::Stark);
    assert_eq!(wrapped.kind(), ProofType::Groth16);
}
