use vstd::prelude::*;

verus! {

/// The failure kinds a recursive verification step can report.
///
/// Every guard failure of a step is fatal to that step and carries exactly
/// one of these kinds, so that a chain-continuity bug can be told apart from
/// a deliberate verifying-key rotation mismatch.
#[derive(Clone, Copy, Debug, PartialEq, Eq, Structural)]
pub enum StepError {
    /// A header claimed as genesis, or a prior output's genesis anchor,
    /// does not match the chain's genesis hash.
    GenesisMismatch,
    /// The prior output's latest-hash anchor does not match the trusted
    /// header handed to this step.
    ChainDiscontinuity,
    /// Trust-weighted header verification did not return success.
    VerificationFailed,
    /// The caller's upgrade flag disagrees with checkpoint membership of the
    /// trusted header's hash.
    UpgradeFlagMismatch,
    /// A verifying-key digest does not carry over as the protocol demands.
    KeyContinuityViolation,
    /// The candidate checkpoint list did not stay equal (non-upgrade) or grow
    /// by exactly one appended entry (upgrade).
    CheckpointGrowthViolation,
    /// The previous step's proof failed its check, or the supplied witness
    /// cannot be checked in the form the appended checkpoint demands.
    ProofVerificationFailed,
    /// A committed output could not be decoded: a read past the end of the
    /// buffer, or a size that disagrees with what was written.
    MalformedEncoding,
}

} // verus!
