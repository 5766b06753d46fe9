use vstd::prelude::*;

use crate::checkpoint::{
    bytes32_eq, bytes_eq, checkpoints_eq, checkpoints_view, digest_eq, is_upgrade_boundary,
    spec_is_upgrade_boundary, spec_validate_growth, validate_growth, CheckpointModel,
    Groth16VkeyCheckpoint, ProofType,
};
use crate::crypto::{check_groth16, groth16_accepts, public_values_digest, sha256_of, vk_hex_of};
use crate::errors::StepError;
use crate::headers::{LightHeader, Verdict};
use crate::output::{
    dec_public_output, decode_public_output, enc_public_output, lemma_round_public_output,
    output_wf, PublicOutput, PublicOutputModel,
};

verus! {

/// The mathematical value of a light header.
pub ghost struct LightHeaderModel {
    /// Block height.
    pub height: u64,
    /// Header time as unix seconds.
    pub time: u64,
    /// Validator-set reference hash.
    pub validators_hash: Seq<u8>,
    /// The header's content hash.
    pub hash: Seq<u8>,
}

impl View for LightHeader {
    type V = LightHeaderModel;

    open spec fn view(&self) -> LightHeaderModel {
        LightHeaderModel {
            height: self.height,
            time: self.time,
            validators_hash: self.validators_hash@,
            hash: self.hash@,
        }
    }
}

/// How the previous step's proof is to be checked: as a recursive STARK
/// against a program verifying-key digest, or as a Groth16-wrapped proof
/// carrying its own proof and verifying-key bytes.  Each variant carries
/// exactly the data its check needs.
#[derive(Clone, Debug, PartialEq, Eq)]
pub enum ProofWitness {
    /// A recursive STARK proof, checked against `vk_digest`.
    StarkRecursive {
        /// The digest the previous proof is checked against.
        vk_digest: [u32; 8],
    },
    /// A Groth16-wrapped proof.
    Groth16Wrapped {
        /// The wrapped proof bytes.
        proof_bytes: Vec<u8>,
        /// The verifying-key bytes the proof claims to be checked with.
        vk_bytes: Vec<u8>,
    },
}

/// The mathematical value of a proof witness.
pub ghost enum WitnessModel {
    /// A recursive STARK witness.
    StarkRecursive {
        /// The digest the previous proof is checked against.
        vk_digest: Seq<u32>,
    },
    /// A Groth16-wrapped witness.
    Groth16Wrapped {
        /// The wrapped proof bytes.
        proof_bytes: Seq<u8>,
        /// The claimed verifying-key bytes.
        vk_bytes: Seq<u8>,
    },
}

impl View for ProofWitness {
    type V = WitnessModel;

    open spec fn view(&self) -> WitnessModel {
        match self {
            ProofWitness::StarkRecursive { vk_digest } => WitnessModel::StarkRecursive {
                vk_digest: vk_digest@,
            },
            ProofWitness::Groth16Wrapped { proof_bytes, vk_bytes } => WitnessModel::Groth16Wrapped {
                proof_bytes: proof_bytes@,
                vk_bytes: vk_bytes@,
            },
        }
    }
}

impl ProofWitness {
    /// The proof system this witness is checked in.
    pub fn kind(&self) -> (r: ProofType)
        ensures
            r == (match self@ {
                WitnessModel::StarkRecursive { .. } => ProofType::Stark,
                WitnessModel::Groth16Wrapped { .. } => ProofType::Groth16,
            }),
    {
        match self {
            ProofWitness::StarkRecursive { .. } => ProofType::Stark,
            ProofWitness::Groth16Wrapped { .. } => ProofType::Groth16,
        }
    }
}

/// One invocation's inputs: the upgrade flag, the candidate checkpoint
/// list, the chain's genesis hash, the optional trusted header (absent
/// only at genesis), the untrusted header, the verifying-key digest this
/// step commits, and the previous step's proof witness and committed
/// output bytes (each absent exactly when the trusted header is).
#[derive(Clone, Debug, PartialEq, Eq)]
pub struct StepInput {
    /// Whether the caller claims this step crosses an upgrade boundary.
    pub is_upgrade: bool,
    /// The candidate checkpoint list for this step.
    pub checkpoints: Vec<Groth16VkeyCheckpoint>,
    /// The chain's genesis hash.
    pub genesis_hash: [u8; 32],
    /// The trusted header; absent only at genesis.
    pub h1: Option<LightHeader>,
    /// The untrusted header this step advances the chain to.
    pub h2: LightHeader,
    /// The digest of the verifying key committed by this step.
    pub vk_digest: [u32; 8],
    /// How the previous step's proof is to be checked; absent iff `h1` is.
    pub prev_witness: Option<ProofWitness>,
    /// The previous step's committed output bytes; absent iff `h1` is.
    pub prev_output: Option<Vec<u8>>,
}

/// The mathematical value of a step's inputs.
pub ghost struct StepInputModel {
    /// The claimed upgrade flag.
    pub is_upgrade: bool,
    /// Models of the candidate checkpoints.
    pub checkpoints: Seq<CheckpointModel>,
    /// The chain's genesis hash.
    pub genesis_hash: Seq<u8>,
    /// The trusted header, absent only at genesis.
    pub h1: Option<LightHeaderModel>,
    /// The untrusted header.
    pub h2: LightHeaderModel,
    /// The committed verifying-key digest.
    pub vk_digest: Seq<u32>,
    /// The previous proof witness, absent iff `h1` is.
    pub prev_witness: Option<WitnessModel>,
    /// The previous committed output bytes, absent iff `h1` is.
    pub prev_output: Option<Seq<u8>>,
}

impl View for StepInput {
    type V = StepInputModel;

    open spec fn view(&self) -> StepInputModel {
        StepInputModel {
            is_upgrade: self.is_upgrade,
            checkpoints: checkpoints_view(self.checkpoints@),
            genesis_hash: self.genesis_hash@,
            h1: match self.h1 {
                Some(h) => Some(h@),
                None => None,
            },
            h2: self.h2@,
            vk_digest: self.vk_digest@,
            prev_witness: match self.prev_witness {
                Some(w) => Some(w@),
                None => None,
            },
            prev_output: match self.prev_output {
                Some(b) => Some(b@),
                None => None,
            },
        }
    }
}

/// The step inputs the protocol is defined over: the previous proof
/// witness and committed output are present exactly when the trusted
/// header is.
pub open spec fn step_input_wf(i: StepInputModel) -> bool {
    &&& (i.h1 is Some <==> i.prev_witness is Some)
    &&& (i.h1 is Some <==> i.prev_output is Some)
}

/// What a successful step commits: the candidate checkpoint list, the two
/// anchors, and the step's verifying-key digest.
pub open spec fn committed_output(i: StepInputModel) -> PublicOutputModel {
    PublicOutputModel {
        checkpoints: i.checkpoints,
        genesis_hash: i.genesis_hash,
        latest_hash: i.h2.hash,
        vk_digest: i.vk_digest,
    }
}

/// Whether `w` checks the previous proof as a recursive STARK against
/// exactly `digest`.
pub open spec fn witness_is_stark_for(w: WitnessModel, digest: Seq<u32>) -> bool {
    w matches WitnessModel::StarkRecursive { vk_digest } && vk_digest == digest
}

/// Whether `w` checks the previous proof as Groth16-wrapped with exactly
/// the verifying-key bytes `vk`.
pub open spec fn witness_is_groth16_for(w: WitnessModel, vk: Seq<u8>) -> bool {
    w matches WitnessModel::Groth16Wrapped { vk_bytes, .. } && vk_bytes == vk
}

/// The proof bytes a Groth16-wrapped witness carries.
pub open spec fn witness_proof_bytes(w: WitnessModel) -> Seq<u8> {
    match w {
        WitnessModel::Groth16Wrapped { proof_bytes, .. } => proof_bytes,
        WitnessModel::StarkRecursive { .. } => Seq::empty(),
    }
}

/// The non-upgrade path: the candidate list must equal the previous list,
/// the committed digest must carry over unchanged, and the previous proof
/// is checked as a recursive STARK against that digest.
pub open spec fn spec_steady_step(
    i: StepInputModel,
    w: WitnessModel,
    prev: PublicOutputModel,
    stark_ok: bool,
) -> Result<PublicOutputModel, StepError> {
    if i.checkpoints != prev.checkpoints {
        Err(StepError::CheckpointGrowthViolation)
    } else if i.vk_digest != prev.vk_digest {
        Err(StepError::KeyContinuityViolation)
    } else if !witness_is_stark_for(w, prev.vk_digest) {
        Err(StepError::KeyContinuityViolation)
    } else if !stark_ok {
        Err(StepError::ProofVerificationFailed)
    } else {
        Ok(committed_output(i))
    }
}

/// The upgrade path: the candidate list must append exactly one
/// checkpoint whose prior-program digest equals the previous committed
/// digest; if the appended checkpoint carries a Groth16 key the previous
/// proof is checked as Groth16-wrapped against it, otherwise as a
/// recursive STARK against the previous digest.
pub open spec fn spec_upgrade_step(
    i: StepInputModel,
    w: WitnessModel,
    prev: PublicOutputModel,
    prev_bytes: Seq<u8>,
    stark_ok: bool,
) -> Result<PublicOutputModel, StepError> {
    match spec_validate_growth(prev.checkpoints, i.checkpoints, prev.vk_digest) {
        Err(e) => Err(e),
        Ok(appended) => match appended.groth16_vk {
            Some(vk) => {
                if !witness_is_groth16_for(w, vk) {
                    Err(StepError::ProofVerificationFailed)
                } else if !groth16_accepts(
                    witness_proof_bytes(w),
                    sha256_of(prev_bytes),
                    vk_hex_of(appended.program_vk_hash),
                    vk,
                ) {
                    Err(StepError::ProofVerificationFailed)
                } else {
                    Ok(committed_output(i))
                }
            },
            None => {
                if !witness_is_stark_for(w, prev.vk_digest) {
                    Err(StepError::KeyContinuityViolation)
                } else if !stark_ok {
                    Err(StepError::ProofVerificationFailed)
                } else {
                    Ok(committed_output(i))
                }
            },
        },
    }
}

/// The linked (non-genesis) path after header verification succeeded:
/// decode the previous output, tie its anchors to this step's genesis and
/// trusted header, cross-check the upgrade flag against checkpoint
/// membership, then take the steady or the upgrade path.
pub open spec fn spec_linked_step(
    i: StepInputModel,
    h1: LightHeaderModel,
    stark_ok: bool,
) -> Result<PublicOutputModel, StepError>
    recommends
        i.prev_witness is Some,
        i.prev_output is Some,
{
    match (i.prev_witness, i.prev_output) {
        (Some(w), Some(prev_bytes)) => match dec_public_output(prev_bytes) {
            None => Err(StepError::MalformedEncoding),
            Some((prev, rest)) => {
                if prev.genesis_hash != i.genesis_hash {
                    Err(StepError::GenesisMismatch)
                } else if prev.latest_hash != h1.hash {
                    Err(StepError::ChainDiscontinuity)
                } else if i.is_upgrade != spec_is_upgrade_boundary(h1.hash, i.checkpoints) {
                    Err(StepError::UpgradeFlagMismatch)
                } else if !i.is_upgrade {
                    spec_steady_step(i, w, prev, stark_ok)
                } else {
                    spec_upgrade_step(i, w, prev, prev_bytes, stark_ok)
                }
            },
        },
        _ => Err(StepError::MalformedEncoding),
    }
}

/// The whole protocol for one step, as a function of the inputs, the
/// header-verification verdict, and the outcome of the recursive-STARK
/// check where one is demanded: either the committed output, or the first
/// guard failure in protocol order.
pub open spec fn spec_run_step(
    i: StepInputModel,
    verdict: Verdict,
    stark_ok: bool,
) -> Result<PublicOutputModel, StepError>
    recommends
        step_input_wf(i),
{
    match i.h1 {
        None => {
            if i.h2.hash == i.genesis_hash {
                Ok(committed_output(i))
            } else {
                Err(StepError::GenesisMismatch)
            }
        },
        Some(h1) => {
            if !(verdict is Success) {
                Err(StepError::VerificationFailed)
            } else {
                spec_linked_step(i, h1, stark_ok)
            }
        },
    }
}

/// Runs one step of the recursive verification protocol.
///
/// `verdict` is the result the header-verification capability returned for
/// (untrusted `h2`, trusted `h1`) at `h2`'s verification time; it is
/// consulted only when `h1` is present.  `stark_accepted` is the result of
/// the recursive-STARK capability for the digest the witness carries and
/// the digest of the previous output bytes; it is consulted only where the
/// protocol demands a STARK check.  The Groth16 check, where demanded, is
/// performed here.  The result matches `spec_run_step` exactly: the
/// committed output on success, the first failing guard's error kind
/// otherwise.
pub fn run_step(input: StepInput, verdict: Verdict, stark_accepted: bool) -> (r: Result<
    PublicOutput,
    StepError,
>)
    requires
        step_input_wf(input@),
    ensures
        (match (r, spec_run_step(input@, verdict, stark_accepted)) {
            (Ok(po), Ok(m)) => po@ == m,
            (Err(e), Err(se)) => e == se,
            _ => false,
        }),
{
    match input.h1 {
        None => {
            if bytes32_eq(&input.h2.hash, &input.genesis_hash) {
                Ok(
                    PublicOutput {
                        checkpoints: input.checkpoints,
                        genesis_hash: input.genesis_hash,
                        latest_hash: input.h2.hash,
                        vk_digest: input.vk_digest,
                    },
                )
            } else {
                Err(StepError::GenesisMismatch)
            }
        },
        Some(h1) => {
            if !verdict.accepts() {
                return Err(StepError::VerificationFailed);
            }
            let prev_bytes = match &input.prev_output {
                Some(b) => b,
                None => vstd::pervasive::unreached(),
            };
            let prev = match decode_public_output(prev_bytes.as_slice()) {
                None => {
                    return Err(StepError::MalformedEncoding);
                },
                Some(po) => po,
            };
            if !bytes32_eq(&prev.genesis_hash, &input.genesis_hash) {
                return Err(StepError::GenesisMismatch);
            }
            if !bytes32_eq(&prev.latest_hash, &h1.hash) {
                return Err(StepError::ChainDiscontinuity);
            }
            let boundary = is_upgrade_boundary(&h1.hash, &input.checkpoints);
            if input.is_upgrade != boundary {
                return Err(StepError::UpgradeFlagMismatch);
            }
            let witness = match &input.prev_witness {
                Some(w) => w,
                None => vstd::pervasive::unreached(),
            };
            if !input.is_upgrade {
                if !checkpoints_eq(&input.checkpoints, &prev.checkpoints) {
                    return Err(StepError::CheckpointGrowthViolation);
                }
                if !digest_eq(&input.vk_digest, &prev.vk_digest) {
                    return Err(StepError::KeyContinuityViolation);
                }
                let stark_matches = match witness {
                    ProofWitness::StarkRecursive { vk_digest } => digest_eq(
                        vk_digest,
                        &prev.vk_digest,
                    ),
                    ProofWitness::Groth16Wrapped { .. } => false,
                };
                if !stark_matches {
                    return Err(StepError::KeyContinuityViolation);
                }
                if !stark_accepted {
                    return Err(StepError::ProofVerificationFailed);
                }
                Ok(
                    PublicOutput {
                        checkpoints: input.checkpoints,
                        genesis_hash: input.genesis_hash,
                        latest_hash: input.h2.hash,
                        vk_digest: input.vk_digest,
                    },
                )
            } else {
                let appended = match validate_growth(
                    &prev.checkpoints,
                    &input.checkpoints,
                    &prev.vk_digest,
                ) {
                    Err(e) => {
                        return Err(e);
                    },
                    Ok(c) => c,
                };
                match &appended.groth16_vk {
                    Some(vk) => {
                        let matching_proof = match witness {
                            ProofWitness::Groth16Wrapped { proof_bytes, vk_bytes } => if bytes_eq(
                                vk_bytes,
                                vk,
                            ) {
                                Some(proof_bytes)
                            } else {
                                None
                            },
                            ProofWitness::StarkRecursive { .. } => None,
                        };
                        match matching_proof {
                            None => Err(StepError::ProofVerificationFailed),
                            Some(proof_bytes) => {
                                let digest = public_values_digest(prev_bytes.as_slice());
                                if check_groth16(proof_bytes, &digest, &appended.program_vk_hash, vk)
                                     {
                                    Ok(
                                        PublicOutput {
                                            checkpoints: input.checkpoints,
                                            genesis_hash: input.genesis_hash,
                                            latest_hash: input.h2.hash,
                                            vk_digest: input.vk_digest,
                                        },
                                    )
                                } else {
                                    Err(StepError::ProofVerificationFailed)
                                }
                            },
                        }
                    },
                    None => {
                        let stark_matches = match witness {
                            ProofWitness::StarkRecursive { vk_digest } => digest_eq(
                                vk_digest,
                                &prev.vk_digest,
                            ),
                            ProofWitness::Groth16Wrapped { .. } => false,
                        };
                        if !stark_matches {
                            Err(StepError::KeyContinuityViolation)
                        } else if !stark_accepted {
                            Err(StepError::ProofVerificationFailed)
                        } else {
                            Ok(
                                PublicOutput {
                                    checkpoints: input.checkpoints,
                                    genesis_hash: input.genesis_hash,
                                    latest_hash: input.h2.hash,
                                    vk_digest: input.vk_digest,
                                },
                            )
                        }
                    },
                }
            }
        },
    }
}

// ---------------------------------------------------------------------------
// Laws of the step protocol.
// ---------------------------------------------------------------------------
/// Law: at genesis — no trusted header — the step consults neither the
/// header-verification verdict nor any proof check.  It succeeds exactly
/// when the untrusted header's hash equals the genesis hash, committing
/// the inputs as given, and fails with `GenesisMismatch` otherwise.
pub proof fn lemma_genesis_step(i: StepInputModel, v1: Verdict, v2: Verdict, s1: bool, s2: bool)
    requires
        i.h1 is None,
    ensures
        spec_run_step(i, v1, s1) == spec_run_step(i, v2, s2),
        i.h2.hash == i.genesis_hash ==> spec_run_step(i, v1, s1) == Ok::<
            PublicOutputModel,
            StepError,
        >(committed_output(i)),
        i.h2.hash != i.genesis_hash ==> spec_run_step(i, v1, s1) == Err::<
            PublicOutputModel,
            StepError,
        >(StepError::GenesisMismatch),
{
}

/// Law: chain linking.  A step fed the genuine committed output of a
/// successful prior step — its bytes encoded verbatim — with the trusted
/// header at that output's latest hash, the same genesis, the unchanged
/// checkpoint list away from any upgrade boundary, the carried-over
/// digest, and a STARK witness for that digest, succeeds whenever header
/// verification and the STARK check do, and commits the new anchors.
pub proof fn lemma_chain_link(po: PublicOutputModel, i: StepInputModel, h1: LightHeaderModel)
    requires
        output_wf(po),
        i.h1 == Some(h1),
        h1.hash == po.latest_hash,
        i.genesis_hash == po.genesis_hash,
        i.checkpoints == po.checkpoints,
        i.vk_digest == po.vk_digest,
        i.prev_witness == Some(WitnessModel::StarkRecursive { vk_digest: po.vk_digest }),
        i.prev_output == Some(enc_public_output(po)),
        i.is_upgrade == false,
        !spec_is_upgrade_boundary(h1.hash, i.checkpoints),
    ensures
        spec_run_step(i, Verdict::Success, true) == Ok::<PublicOutputModel, StepError>(
            committed_output(i),
        ),
{
    lemma_round_public_output(po, Seq::empty());
    assert(enc_public_output(po) + Seq::<u8>::empty() =~= enc_public_output(po));
}

/// Law: a fed-forward output whose genesis anchor was mutated away from
/// this chain's genesis hash is rejected as a genesis mismatch.
pub proof fn lemma_chain_link_genesis_mutation(
    po2: PublicOutputModel,
    i: StepInputModel,
    h1: LightHeaderModel,
    stark_ok: bool,
)
    requires
        output_wf(po2),
        i.h1 == Some(h1),
        i.prev_witness is Some,
        i.prev_output == Some(enc_public_output(po2)),
        po2.genesis_hash != i.genesis_hash,
    ensures
        spec_run_step(i, Verdict::Success, stark_ok) == Err::<PublicOutputModel, StepError>(
            StepError::GenesisMismatch,
        ),
{
    lemma_round_public_output(po2, Seq::empty());
    assert(enc_public_output(po2) + Seq::<u8>::empty() =~= enc_public_output(po2));
}

/// Law: a fed-forward output whose latest-hash anchor was mutated away
/// from the trusted header's hash is rejected as a chain discontinuity.
pub proof fn lemma_chain_link_latest_mutation(
    po2: PublicOutputModel,
    i: StepInputModel,
    h1: LightHeaderModel,
    stark_ok: bool,
)
    requires
        output_wf(po2),
        i.h1 == Some(h1),
        i.prev_witness is Some,
        i.prev_output == Some(enc_public_output(po2)),
        po2.genesis_hash == i.genesis_hash,
        po2.latest_hash != h1.hash,
    ensures
        spec_run_step(i, Verdict::Success, stark_ok) == Err::<PublicOutputModel, StepError>(
            StepError::ChainDiscontinuity,
        ),
{
    lemma_round_public_output(po2, Seq::empty());
    assert(enc_public_output(po2) + Seq::<u8>::empty() =~= enc_public_output(po2));
}

/// Law: away from an upgrade boundary, a fed-forward output whose
/// committed digest was mutated away from the digest this step commits is
/// rejected as a key-continuity violation.
pub proof fn lemma_chain_link_digest_mutation(
    po2: PublicOutputModel,
    i: StepInputModel,
    h1: LightHeaderModel,
    stark_ok: bool,
)
    requires
        output_wf(po2),
        i.h1 == Some(h1),
        i.prev_witness is Some,
        i.prev_output == Some(enc_public_output(po2)),
        po2.genesis_hash == i.genesis_hash,
        po2.latest_hash == h1.hash,
        i.is_upgrade == false,
        !spec_is_upgrade_boundary(h1.hash, i.checkpoints),
        i.checkpoints == po2.checkpoints,
        i.vk_digest != po2.vk_digest,
    ensures
        spec_run_step(i, Verdict::Success, stark_ok) == Err::<PublicOutputModel, StepError>(
            StepError::KeyContinuityViolation,
        ),
{
    lemma_round_public_output(po2, Seq::empty());
    assert(enc_public_output(po2) + Seq::<u8>::empty() =~= enc_public_output(po2));
}

/// Law: away from an upgrade boundary, a fed-forward output whose
/// checkpoint list was mutated away from the candidate list is rejected
/// as a checkpoint-growth violation.
pub proof fn lemma_chain_link_checkpoints_mutation(
    po2: PublicOutputModel,
    i: StepInputModel,
    h1: LightHeaderModel,
    stark_ok: bool,
)
    requires
        output_wf(po2),
        i.h1 == Some(h1),
        i.prev_witness is Some,
        i.prev_output == Some(enc_public_output(po2)),
        po2.genesis_hash == i.genesis_hash,
        po2.latest_hash == h1.hash,
        i.is_upgrade == false,
        !spec_is_upgrade_boundary(h1.hash, i.checkpoints),
        i.checkpoints != po2.checkpoints,
    ensures
        spec_run_step(i, Verdict::Success, stark_ok) == Err::<PublicOutputModel, StepError>(
            StepError::CheckpointGrowthViolation,
        ),
{
    lemma_round_public_output(po2, Seq::empty());
    assert(enc_public_output(po2) + Seq::<u8>::empty() =~= enc_public_output(po2));
}

/// Law: whatever a successful linked step commits keeps the chain's
/// invariants.  The genesis anchor carries over from the previous output
/// and equals this step's genesis hash; the latest anchor becomes the
/// untrusted header's hash; away from an upgrade boundary the checkpoint
/// list and the committed digest carry over unchanged; at one, the list
/// is the previous list with exactly one checkpoint appended.
pub proof fn lemma_step_keeps_chain_invariants(
    i: StepInputModel,
    verdict: Verdict,
    stark_ok: bool,
)
    requires
        step_input_wf(i),
        i.h1 is Some,
        spec_run_step(i, verdict, stark_ok) is Ok,
    ensures
        (match (spec_run_step(i, verdict, stark_ok), i.prev_output) {
            (Ok(out), Some(prev_bytes)) => match dec_public_output(prev_bytes) {
                Some((prev, rest)) => {
                    &&& out.genesis_hash == prev.genesis_hash
                    &&& out.genesis_hash == i.genesis_hash
                    &&& out.latest_hash == i.h2.hash
                    &&& if i.is_upgrade {
                        &&& out.checkpoints.len() == prev.checkpoints.len() + 1
                        &&& out.checkpoints.subrange(0, prev.checkpoints.len() as int)
                            == prev.checkpoints
                    } else {
                        &&& out.checkpoints == prev.checkpoints
                        &&& out.vk_digest == prev.vk_digest
                    }
                },
                None => false,
            },
            _ => false,
        }),
{
}

/// Law: when the trusted header's hash is pinned by a checkpoint of the
/// candidate list, a step that does not raise the upgrade flag is
/// rejected as an upgrade-flag mismatch.
pub proof fn lemma_upgrade_flag_required(
    po: PublicOutputModel,
    i: StepInputModel,
    h1: LightHeaderModel,
    stark_ok: bool,
)
    requires
        output_wf(po),
        i.h1 == Some(h1),
        i.prev_witness is Some,
        i.prev_output == Some(enc_public_output(po)),
        po.genesis_hash == i.genesis_hash,
        po.latest_hash == h1.hash,
        spec_is_upgrade_boundary(h1.hash, i.checkpoints),
        i.is_upgrade == false,
    ensures
        spec_run_step(i, Verdict::Success, stark_ok) == Err::<PublicOutputModel, StepError>(
            StepError::UpgradeFlagMismatch,
        ),
{
    lemma_round_public_output(po, Seq::empty());
    assert(enc_public_output(po) + Seq::<u8>::empty() =~= enc_public_output(po));
}

/// Law: a step that raises the upgrade flag at a checkpointed header but
/// hands over the checkpoint list unchanged is rejected as a
/// checkpoint-growth violation.
pub proof fn lemma_upgrade_requires_growth(
    po: PublicOutputModel,
    i: StepInputModel,
    h1: LightHeaderModel,
    stark_ok: bool,
)
    requires
        output_wf(po),
        i.h1 == Some(h1),
        i.prev_witness is Some,
        i.prev_output == Some(enc_public_output(po)),
        po.genesis_hash == i.genesis_hash,
        po.latest_hash == h1.hash,
        spec_is_upgrade_boundary(h1.hash, i.checkpoints),
        i.is_upgrade == true,
        i.checkpoints == po.checkpoints,
    ensures
        spec_run_step(i, Verdict::Success, stark_ok) == Err::<PublicOutputModel, StepError>(
            StepError::CheckpointGrowthViolation,
        ),
{
    lemma_round_public_output(po, Seq::empty());
    assert(enc_public_output(po) + Seq::<u8>::empty() =~= enc_public_output(po));
}

/// Law: a step that raises the upgrade flag at a checkpointed header and
/// appends exactly one checkpoint pinning the prior committed digest —
/// with no Groth16 key, a STARK witness for the prior digest, and a
/// passing STARK check — succeeds and commits the grown list.
pub proof fn lemma_upgrade_append_succeeds(
    po: PublicOutputModel,
    i: StepInputModel,
    h1: LightHeaderModel,
    cp: CheckpointModel,
)
    requires
        output_wf(po),
        i.h1 == Some(h1),
        i.prev_witness == Some(WitnessModel::StarkRecursive { vk_digest: po.vk_digest }),
        i.prev_output == Some(enc_public_output(po)),
        po.genesis_hash == i.genesis_hash,
        po.latest_hash == h1.hash,
        i.checkpoints == po.checkpoints.push(cp),
        cp.program_vk_hash == po.vk_digest,
        cp.groth16_vk is None,
        spec_is_upgrade_boundary(h1.hash, i.checkpoints),
        i.is_upgrade == true,
    ensures
        spec_run_step(i, Verdict::Success, true) == Ok::<PublicOutputModel, StepError>(
            committed_output(i),
        ),
{
    lemma_round_public_output(po, Seq::empty());
    assert(enc_public_output(po) + Seq::<u8>::empty() =~= enc_public_output(po));
    assert(i.checkpoints.subrange(0, po.checkpoints.len() as int) =~= po.checkpoints);
    assert(i.checkpoints.last() == cp);
}

} // verus!
