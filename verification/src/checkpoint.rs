use vstd::prelude::*;

use crate::errors::StepError;

verus! {

/// The two systems a previous step's proof can be checked in.
#[derive(Clone, Copy, Debug, PartialEq, Eq, Structural)]
pub enum ProofType {
    /// A recursive STARK proof, checked against a program verifying-key
    /// digest.
    Stark,
    /// A Groth16-wrapped proof, checked against explicit verifying-key
    /// bytes.
    Groth16,
}

/// A record pinning a verifying-key rotation to a specific header: the
/// 32-byte hash of the header at the upgrade boundary, the Groth16
/// verifying key to check the previous proof with (absent for a same-system
/// key bump), and the digest of the program verifying key that produced the
/// chain up to that boundary.
#[derive(Clone, Debug, PartialEq, Eq)]
pub struct Groth16VkeyCheckpoint {
    /// Hash of the header this rotation is pinned to.
    pub block_hash: [u8; 32],
    /// Verifying key for checking the previous proof as Groth16-wrapped;
    /// `None` when the previous proof stays a recursive STARK.
    pub groth16_vk: Option<Vec<u8>>,
    /// Digest of the program verifying key that produced the chain so far.
    pub program_vk_hash: [u32; 8],
}

/// The mathematical value of a checkpoint: its byte and word sequences.
pub ghost struct CheckpointModel {
    /// Hash of the header the rotation is pinned to.
    pub block_hash: Seq<u8>,
    /// Optional Groth16 verifying-key bytes.
    pub groth16_vk: Option<Seq<u8>>,
    /// Digest of the prior program verifying key.
    pub program_vk_hash: Seq<u32>,
}

impl View for Groth16VkeyCheckpoint {
    type V = CheckpointModel;

    open spec fn view(&self) -> CheckpointModel {
        CheckpointModel {
            block_hash: self.block_hash@,
            groth16_vk: match self.groth16_vk {
                Some(v) => Some(v@),
                None => None,
            },
            program_vk_hash: self.program_vk_hash@,
        }
    }
}

/// The models of a list of checkpoints, in order.
pub open spec fn checkpoints_view(cs: Seq<Groth16VkeyCheckpoint>) -> Seq<CheckpointModel> {
    cs.map_values(|c: Groth16VkeyCheckpoint| c@)
}

/// The shapes every checkpoint built of exec values has: a 32-byte block
/// hash, an 8-word digest, and key bytes that a 64-bit length can count.
pub open spec fn checkpoint_wf(c: CheckpointModel) -> bool {
    &&& c.block_hash.len() == 32
    &&& c.program_vk_hash.len() == 8
    &&& match c.groth16_vk {
        Some(v) => v.len() < 0x1_0000_0000_0000_0000,
        None => true,
    }
}

/// A header hash lies on an upgrade boundary exactly when some checkpoint
/// of the list pins that hash.
pub open spec fn spec_is_upgrade_boundary(
    header_hash: Seq<u8>,
    checkpoints: Seq<CheckpointModel>,
) -> bool {
    exists|i: int|
        0 <= i < checkpoints.len() && #[trigger] checkpoints[i].block_hash == header_hash
}

/// Exact-one-append validation over two checkpoint-list snapshots: the new
/// list must be the old list with exactly one checkpoint appended, and the
/// appended record's prior-program digest must equal `expected`.
pub open spec fn spec_validate_growth(
    old_list: Seq<CheckpointModel>,
    new_list: Seq<CheckpointModel>,
    expected: Seq<u32>,
) -> Result<CheckpointModel, StepError> {
    if !(new_list.len() == old_list.len() + 1 && new_list.subrange(
        0,
        old_list.len() as int,
    ) == old_list) {
        Err(StepError::CheckpointGrowthViolation)
    } else if new_list.last().program_vk_hash != expected {
        Err(StepError::KeyContinuityViolation)
    } else {
        Ok(new_list.last())
    }
}

/// True exactly when the two 32-byte hashes hold the same bytes.
pub fn bytes32_eq(a: &[u8; 32], b: &[u8; 32]) -> (r: bool)
    ensures
        r == (a@ == b@),
{
    let mut i: usize = 0;
    while i < 32
        invariant
            0 <= i <= 32,
            forall|j: int| 0 <= j < i ==> a@[j] == b@[j],
        decreases 32 - i,
    {
        if a[i] != b[i] {
            return false;
        }
        i += 1;
    }
    proof {
        assert(a@ =~= b@);
    }
    true
}

/// True exactly when the two 8-word digests hold the same words.
pub fn digest_eq(a: &[u32; 8], b: &[u32; 8]) -> (r: bool)
    ensures
        r == (a@ == b@),
{
    let mut i: usize = 0;
    while i < 8
        invariant
            0 <= i <= 8,
            forall|j: int| 0 <= j < i ==> a@[j] == b@[j],
        decreases 8 - i,
    {
        if a[i] != b[i] {
            return false;
        }
        i += 1;
    }
    proof {
        assert(a@ =~= b@);
    }
    true
}

/// True exactly when the two byte vectors hold the same bytes.
pub fn bytes_eq(a: &Vec<u8>, b: &Vec<u8>) -> (r: bool)
    ensures
        r == (a@ == b@),
{
    if a.len() != b.len() {
        return false;
    }
    let n = a.len();
    let mut i: usize = 0;
    while i < n
        invariant
            0 <= i <= n,
            n == a@.len() == b@.len(),
            forall|j: int| 0 <= j < i ==> a@[j] == b@[j],
        decreases n - i,
    {
        if a[i] != b[i] {
            return false;
        }
        i += 1;
    }
    proof {
        assert(a@ =~= b@);
    }
    true
}

/// True exactly when the two checkpoints model the same value.
pub fn checkpoint_eq(a: &Groth16VkeyCheckpoint, b: &Groth16VkeyCheckpoint) -> (r: bool)
    ensures
        r == (a@ == b@),
{
    if !bytes32_eq(&a.block_hash, &b.block_hash) {
        return false;
    }
    if !digest_eq(&a.program_vk_hash, &b.program_vk_hash) {
        return false;
    }
    match (&a.groth16_vk, &b.groth16_vk) {
        (None, None) => true,
        (Some(va), Some(vb)) => bytes_eq(va, vb),
        _ => false,
    }
}

/// True exactly when the two checkpoint lists model the same sequence.
pub fn checkpoints_eq(a: &Vec<Groth16VkeyCheckpoint>, b: &Vec<Groth16VkeyCheckpoint>) -> (r: bool)
    ensures
        r == (checkpoints_view(a@) == checkpoints_view(b@)),
{
    if a.len() != b.len() {
        assert(checkpoints_view(a@).len() != checkpoints_view(b@).len());
        return false;
    }
    let n = a.len();
    let mut i: usize = 0;
    while i < n
        invariant
            0 <= i <= n,
            n == a@.len() == b@.len(),
            forall|j: int| 0 <= j < i ==> #[trigger] a@[j]@ == b@[j]@,
        decreases n - i,
    {
        if !checkpoint_eq(&a[i], &b[i]) {
            assert(checkpoints_view(a@)[i as int] != checkpoints_view(b@)[i as int]);
            return false;
        }
        i += 1;
    }
    proof {
        assert(checkpoints_view(a@) =~= checkpoints_view(b@));
    }
    true
}

/// Whether `header_hash` sits on an upgrade boundary of the candidate list:
/// an exact block-hash match against some checkpoint.
pub fn is_upgrade_boundary(
    header_hash: &[u8; 32],
    checkpoints: &Vec<Groth16VkeyCheckpoint>,
) -> (r: bool)
    ensures
        r == spec_is_upgrade_boundary(header_hash@, checkpoints_view(checkpoints@)),
{
    let n = checkpoints.len();
    let mut i: usize = 0;
    while i < n
        invariant
            0 <= i <= n,
            n == checkpoints@.len(),
            forall|j: int|
                0 <= j < i ==> #[trigger] checkpoints_view(checkpoints@)[j].block_hash
                    != header_hash@,
        decreases n - i,
    {
        if bytes32_eq(&checkpoints[i].block_hash, header_hash) {
            assert(checkpoints_view(checkpoints@)[i as int].block_hash == header_hash@);
            return true;
        }
        assert(checkpoints_view(checkpoints@)[i as int].block_hash != header_hash@);
        i += 1;
    }
    false
}

/// Validates growth of the checkpoint ledger across an upgrade: the new
/// list must append exactly one checkpoint to the old list, and that
/// checkpoint's prior-program digest must equal `expected`.  On success the
/// appended checkpoint is returned.
pub fn validate_growth<'a>(
    old_list: &Vec<Groth16VkeyCheckpoint>,
    new_list: &'a Vec<Groth16VkeyCheckpoint>,
    expected: &[u32; 8],
) -> (r: Result<&'a Groth16VkeyCheckpoint, StepError>)
    ensures
        match r {
            Ok(c) => spec_validate_growth(
                checkpoints_view(old_list@),
                checkpoints_view(new_list@),
                expected@,
            ) == Ok::<CheckpointModel, StepError>(c@),
            Err(e) => spec_validate_growth(
                checkpoints_view(old_list@),
                checkpoints_view(new_list@),
                expected@,
            ) == Err::<CheckpointModel, StepError>(e),
        },
{
    let ghost old_v = checkpoints_view(old_list@);
    let ghost new_v = checkpoints_view(new_list@);
    if new_list.len() == 0 || new_list.len() - 1 != old_list.len() {
        return Err(StepError::CheckpointGrowthViolation);
    }
    let n = old_list.len();
    let mut i: usize = 0;
    while i < n
        invariant
            0 <= i <= n,
            n == old_list@.len(),
            new_list@.len() == n + 1,
            old_v == checkpoints_view(old_list@),
            new_v == checkpoints_view(new_list@),
            forall|j: int| 0 <= j < i ==> #[trigger] new_v[j] == old_v[j],
        decreases n - i,
    {
        if !checkpoint_eq(&new_list[i], &old_list[i]) {
            proof {
                assert(new_v[i as int] != old_v[i as int]);
                assert(new_v.subrange(0, n as int) != old_v) by {
                    if new_v.subrange(0, n as int) == old_v {
                        assert(new_v.subrange(0, n as int)[i as int] == new_v[i as int]);
                    }
                }
            }
            return Err(StepError::CheckpointGrowthViolation);
        }
        i += 1;
    }
    proof {
        assert(new_v.subrange(0, n as int) =~= old_v);
    }
    let appended = &new_list[new_list.len() - 1];
    proof {
        assert(new_v.last() == appended@);
    }
    if !digest_eq(&appended.program_vk_hash, expected) {
        return Err(StepError::KeyContinuityViolation);
    }
    Ok(appended)
}

} // verus!
