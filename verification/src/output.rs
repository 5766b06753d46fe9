use vstd::prelude::*;

use crate::checkpoint::{checkpoint_wf, checkpoints_view, CheckpointModel, Groth16VkeyCheckpoint};
use crate::codec::{
    dec_bytes32, dec_checkpoints, dec_words, enc_checkpoints, enc_words, encode_bytes32,
    encode_checkpoints, encode_digest, lemma_round_bytes32, lemma_round_checkpoints,
    lemma_round_words, Buffer,
};

verus! {

/// The committed result of a step: the checkpoint list in force, the two
/// cheaply re-checkable anchors (the chain's genesis hash and the hash of
/// the latest header), and the digest of the verifying key that produced
/// the step.  It is consumed verbatim as input to the next step.
#[derive(Clone, Debug, PartialEq, Eq)]
pub struct PublicOutput {
    /// The checkpoint list in force after this step.
    pub checkpoints: Vec<Groth16VkeyCheckpoint>,
    /// The chain's genesis hash, immutable for the chain's lifetime.
    pub genesis_hash: [u8; 32],
    /// The hash of the untrusted header this step advanced the chain to;
    /// the next step's trusted header must carry exactly this hash.
    pub latest_hash: [u8; 32],
    /// The digest of the verifying key committed by this step.
    pub vk_digest: [u32; 8],
}

/// The mathematical value of a committed output.
pub ghost struct PublicOutputModel {
    /// Models of the checkpoints in force.
    pub checkpoints: Seq<CheckpointModel>,
    /// The genesis anchor.
    pub genesis_hash: Seq<u8>,
    /// The latest-header anchor.
    pub latest_hash: Seq<u8>,
    /// The committed verifying-key digest.
    pub vk_digest: Seq<u32>,
}

impl View for PublicOutput {
    type V = PublicOutputModel;

    open spec fn view(&self) -> PublicOutputModel {
        PublicOutputModel {
            checkpoints: checkpoints_view(self.checkpoints@),
            genesis_hash: self.genesis_hash@,
            latest_hash: self.latest_hash@,
            vk_digest: self.vk_digest@,
        }
    }
}

/// The shapes every committed output built of exec values has.
pub open spec fn output_wf(m: PublicOutputModel) -> bool {
    &&& m.genesis_hash.len() == 32
    &&& m.latest_hash.len() == 32
    &&& m.vk_digest.len() == 8
    &&& m.checkpoints.len() < 0x1_0000_0000_0000_0000
    &&& forall|i: int| 0 <= i < m.checkpoints.len() ==> checkpoint_wf(#[trigger] m.checkpoints[i])
}

/// The model of every exec output value is well-formed.
pub proof fn lemma_output_view_wf(po: &PublicOutput)
    ensures
        output_wf(po@),
{
    assert(po.checkpoints.len() == po.checkpoints@.len());
    assert forall|i: int| 0 <= i < po@.checkpoints.len() implies checkpoint_wf(
        #[trigger] po@.checkpoints[i],
    ) by {
        let c = po.checkpoints@[i];
        assert(po@.checkpoints[i] == c@);
        match c.groth16_vk {
            Some(v) => {
                assert(v.len() == v@.len());
            },
            None => {},
        }
    }
}

/// The committed byte layout: the checkpoint list, the genesis anchor, the
/// latest-header anchor, then the verifying-key digest, in that order.
pub open spec fn enc_public_output(m: PublicOutputModel) -> Seq<u8> {
    enc_checkpoints(m.checkpoints) + m.genesis_hash + m.latest_hash + enc_words(m.vk_digest)
}

/// Reading a committed output back in the order it was written.
pub open spec fn dec_public_output(b: Seq<u8>) -> Option<(PublicOutputModel, Seq<u8>)> {
    match dec_checkpoints(b) {
        None => None,
        Some((cs, r1)) => match dec_bytes32(r1) {
            None => None,
            Some((genesis, r2)) => match dec_bytes32(r2) {
                None => None,
                Some((latest, r3)) => match dec_words(r3, 8) {
                    None => None,
                    Some((digest, r4)) => Some(
                        (
                            PublicOutputModel {
                                checkpoints: cs,
                                genesis_hash: genesis,
                                latest_hash: latest,
                                vk_digest: digest,
                            },
                            r4,
                        ),
                    ),
                },
            },
        },
    }
}

/// A committed output read back is the output written, and the bytes after
/// it are untouched.
pub proof fn lemma_round_public_output(m: PublicOutputModel, rest: Seq<u8>)
    requires
        output_wf(m),
    ensures
        dec_public_output(enc_public_output(m) + rest) == Some((m, rest)),
{
    let after_cps = m.genesis_hash + (m.latest_hash + (enc_words(m.vk_digest) + rest));
    assert(enc_public_output(m) + rest =~= enc_checkpoints(m.checkpoints) + after_cps);
    lemma_round_checkpoints(m.checkpoints, after_cps);
    lemma_round_bytes32(m.genesis_hash, m.latest_hash + (enc_words(m.vk_digest) + rest));
    lemma_round_bytes32(m.latest_hash, enc_words(m.vk_digest) + rest);
    lemma_round_words(m.vk_digest, rest);
    assert(dec_words(enc_words(m.vk_digest) + rest, m.vk_digest.len()) == Some::<
        (Seq<u32>, Seq<u8>),
    >((m.vk_digest, rest)));
}

/// Writes a committed output in the fixed field order.
pub fn encode_public_output(po: &PublicOutput) -> (r: Vec<u8>)
    ensures
        r@ == enc_public_output(po@),
{
    let mut out: Vec<u8> = Vec::new();
    encode_checkpoints(&mut out, &po.checkpoints);
    encode_bytes32(&mut out, &po.genesis_hash);
    encode_bytes32(&mut out, &po.latest_hash);
    encode_digest(&mut out, &po.vk_digest);
    proof {
        assert(out@ =~= enc_public_output(po@));
    }
    out
}

impl Buffer {
    /// Reads a committed output: the checkpoint list, the genesis anchor,
    /// the latest-header anchor, then the verifying-key digest.
    pub fn read_public_output(&mut self) -> (r: Option<PublicOutput>)
        ensures
            final(self).data == old(self).data,
            (match dec_public_output(old(self).rest()) {
                Some((m, rest)) => (match r {
                    Some(po) => po@ == m && final(self).rest() == rest,
                    None => false,
                }),
                None => r is None && final(self).ptr == old(self).ptr,
            }),
    {
        let p0 = self.ptr;
        let checkpoints = match self.read_checkpoints() {
            None => {
                return None;
            },
            Some(cs) => cs,
        };
        let genesis_hash = match self.read_bytes32() {
            None => {
                self.ptr = p0;
                return None;
            },
            Some(h) => h,
        };
        let latest_hash = match self.read_bytes32() {
            None => {
                self.ptr = p0;
                return None;
            },
            Some(h) => h,
        };
        let vk_digest = match self.read_digest() {
            None => {
                self.ptr = p0;
                return None;
            },
            Some(d) => d,
        };
        Some(PublicOutput { checkpoints, genesis_hash, latest_hash, vk_digest })
    }
}

/// Decodes a committed output from the front of `bytes`.  Bytes after the
/// encoded output are tolerated and ignored.  `None` exactly when the front
/// of `bytes` does not hold a committed output.
pub fn decode_public_output(bytes: &[u8]) -> (r: Option<PublicOutput>)
    ensures
        (match dec_public_output(bytes@) {
            Some((m, rest)) => (match r {
                Some(po) => po@ == m,
                None => false,
            }),
            None => r is None,
        }),
{
    let mut buf = Buffer::from(bytes);
    buf.read_public_output()
}

} // verus!
