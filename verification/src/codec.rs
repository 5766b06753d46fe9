use vstd::prelude::*;

use crate::checkpoint::{checkpoint_wf, checkpoints_view, CheckpointModel, Groth16VkeyCheckpoint};

verus! {

// The committed output of a step is laid out as a cursor-based sequence of
// values: values are written in a fixed order and must be read back in that
// exact order, each read advancing the cursor by the exact encoded size of
// the value read.  Nothing in the bytes describes itself; producer and
// consumer must agree on field order and types.  All integers are laid out
// little-endian.

// ---------------------------------------------------------------------------
// Encoded forms.
// ---------------------------------------------------------------------------
/// The four little-endian bytes of a 32-bit word.
pub open spec fn u32_le_bytes(x: u32) -> Seq<u8> {
    seq![x as u8, (x >> 8) as u8, (x >> 16) as u8, (x >> 24) as u8]
}

/// The eight little-endian bytes of a 64-bit word.
pub open spec fn u64_le_bytes(x: u64) -> Seq<u8> {
    seq![
        x as u8,
        (x >> 8) as u8,
        (x >> 16) as u8,
        (x >> 24) as u8,
        (x >> 32) as u8,
        (x >> 40) as u8,
        (x >> 48) as u8,
        (x >> 56) as u8,
    ]
}

/// Little-endian words, one after the other.
pub open spec fn enc_words(ws: Seq<u32>) -> Seq<u8>
    decreases ws.len(),
{
    if ws.len() == 0 {
        Seq::empty()
    } else {
        u32_le_bytes(ws.first()) + enc_words(ws.drop_first())
    }
}

/// A byte string prefixed by its 64-bit length.  Meaningful only when the
/// length fits in 64 bits, which holds of every vector.
pub open spec fn enc_len_bytes(b: Seq<u8>) -> Seq<u8> {
    u64_le_bytes(b.len() as u64) + b
}

/// An optional byte string: a one-byte tag, then for `Some` the
/// length-prefixed bytes.
pub open spec fn enc_opt_bytes(o: Option<Seq<u8>>) -> Seq<u8> {
    match o {
        None => seq![0u8],
        Some(v) => seq![1u8] + enc_len_bytes(v),
    }
}

/// A checkpoint: its raw 32-byte block hash, its optional verifying-key
/// bytes, then its eight-word prior-program digest.
pub open spec fn enc_checkpoint(c: CheckpointModel) -> Seq<u8> {
    c.block_hash + enc_opt_bytes(c.groth16_vk) + enc_words(c.program_vk_hash)
}

/// Checkpoints one after the other, no count.
pub open spec fn enc_cp_seq(cs: Seq<CheckpointModel>) -> Seq<u8>
    decreases cs.len(),
{
    if cs.len() == 0 {
        Seq::empty()
    } else {
        enc_checkpoint(cs.first()) + enc_cp_seq(cs.drop_first())
    }
}

/// A checkpoint list: its 64-bit count, then the checkpoints in order.
pub open spec fn enc_checkpoints(cs: Seq<CheckpointModel>) -> Seq<u8> {
    u64_le_bytes(cs.len() as u64) + enc_cp_seq(cs)
}

// ---------------------------------------------------------------------------
// Decoded forms: each yields the value read and the bytes left after it, or
// nothing when the bytes do not hold such a value.
// ---------------------------------------------------------------------------
/// The 32-bit word held by the first four bytes, little-endian.
pub open spec fn le_word32(b: Seq<u8>) -> u32
    recommends
        b.len() >= 4,
{
    (b[0] as u32) | ((b[1] as u32) << 8) | ((b[2] as u32) << 16) | ((b[3] as u32) << 24)
}

/// The 64-bit word held by the first eight bytes, little-endian.
pub open spec fn le_word64(b: Seq<u8>) -> u64
    recommends
        b.len() >= 8,
{
    (b[0] as u64) | ((b[1] as u64) << 8) | ((b[2] as u64) << 16) | ((b[3] as u64) << 24) | (
    (b[4] as u64) << 32) | ((b[5] as u64) << 40) | ((b[6] as u64) << 48) | ((b[7] as u64) << 56)
}

/// Reading a 32-bit word.
pub open spec fn dec_u32(b: Seq<u8>) -> Option<(u32, Seq<u8>)> {
    if b.len() >= 4 {
        Some((le_word32(b), b.skip(4)))
    } else {
        None
    }
}

/// Reading a 64-bit word.
pub open spec fn dec_u64(b: Seq<u8>) -> Option<(u64, Seq<u8>)> {
    if b.len() >= 8 {
        Some((le_word64(b), b.skip(8)))
    } else {
        None
    }
}

/// Reading a raw 32-byte hash.
pub open spec fn dec_bytes32(b: Seq<u8>) -> Option<(Seq<u8>, Seq<u8>)> {
    if b.len() >= 32 {
        Some((b.take(32), b.skip(32)))
    } else {
        None
    }
}

/// Reading `n` 32-bit words.
pub open spec fn dec_words(b: Seq<u8>, n: nat) -> Option<(Seq<u32>, Seq<u8>)>
    decreases n,
{
    if n == 0 {
        Some((Seq::empty(), b))
    } else {
        match dec_u32(b) {
            None => None,
            Some((v, r)) => match dec_words(r, (n - 1) as nat) {
                None => None,
                Some((vs, r2)) => Some((seq![v] + vs, r2)),
            },
        }
    }
}

/// Reading a length-prefixed byte string.
pub open spec fn dec_len_bytes(b: Seq<u8>) -> Option<(Seq<u8>, Seq<u8>)> {
    match dec_u64(b) {
        None => None,
        Some((n, r)) => if r.len() >= n {
            Some((r.take(n as int), r.skip(n as int)))
        } else {
            None
        },
    }
}

/// Reading an optional byte string.  A tag other than 0 or 1 is malformed.
pub open spec fn dec_opt_bytes(b: Seq<u8>) -> Option<(Option<Seq<u8>>, Seq<u8>)> {
    if b.len() < 1 {
        None
    } else if b[0] == 0u8 {
        Some((None, b.skip(1)))
    } else if b[0] == 1u8 {
        match dec_len_bytes(b.skip(1)) {
            None => None,
            Some((v, r)) => Some((Some(v), r)),
        }
    } else {
        None
    }
}

/// Reading one checkpoint.
pub open spec fn dec_checkpoint(b: Seq<u8>) -> Option<(CheckpointModel, Seq<u8>)> {
    match dec_bytes32(b) {
        None => None,
        Some((hash, r1)) => match dec_opt_bytes(r1) {
            None => None,
            Some((vk, r2)) => match dec_words(r2, 8) {
                None => None,
                Some((digest, r3)) => Some(
                    (CheckpointModel { block_hash: hash, groth16_vk: vk, program_vk_hash: digest }, r3),
                ),
            },
        },
    }
}

/// Reading `n` checkpoints.
pub open spec fn dec_cp_seq(b: Seq<u8>, n: nat) -> Option<(Seq<CheckpointModel>, Seq<u8>)>
    decreases n,
{
    if n == 0 {
        Some((Seq::empty(), b))
    } else {
        match dec_checkpoint(b) {
            None => None,
            Some((c, r)) => match dec_cp_seq(r, (n - 1) as nat) {
                None => None,
                Some((cs, r2)) => Some((seq![c] + cs, r2)),
            },
        }
    }
}

/// Reading a counted checkpoint list.
pub open spec fn dec_checkpoints(b: Seq<u8>) -> Option<(Seq<CheckpointModel>, Seq<u8>)> {
    match dec_u64(b) {
        None => None,
        Some((n, r)) => dec_cp_seq(r, n as nat),
    }
}

// ---------------------------------------------------------------------------
// Round trips: reading what was written yields the written value and leaves
// exactly the bytes that follow it.
// ---------------------------------------------------------------------------
/// A 32-bit word read back is the word written.
pub proof fn lemma_round_u32(x: u32, rest: Seq<u8>)
    ensures
        dec_u32(u32_le_bytes(x) + rest) == Some((x, rest)),
{
    let b = u32_le_bytes(x) + rest;
    let b0 = x as u8;
    let b1 = (x >> 8) as u8;
    let b2 = (x >> 16) as u8;
    let b3 = (x >> 24) as u8;
    assert((b0 as u32) | ((b1 as u32) << 8) | ((b2 as u32) << 16) | ((b3 as u32) << 24) == x)
        by (bit_vector)
        requires
            b0 == x as u8,
            b1 == (x >> 8) as u8,
            b2 == (x >> 16) as u8,
            b3 == (x >> 24) as u8,
    ;
    assert(b[0] == b0 && b[1] == b1 && b[2] == b2 && b[3] == b3);
    assert(b.skip(4) =~= rest);
}

/// A 64-bit word read back is the word written.
pub proof fn lemma_round_u64(x: u64, rest: Seq<u8>)
    ensures
        dec_u64(u64_le_bytes(x) + rest) == Some((x, rest)),
{
    let b = u64_le_bytes(x) + rest;
    let b0 = x as u8;
    let b1 = (x >> 8) as u8;
    let b2 = (x >> 16) as u8;
    let b3 = (x >> 24) as u8;
    let b4 = (x >> 32) as u8;
    let b5 = (x >> 40) as u8;
    let b6 = (x >> 48) as u8;
    let b7 = (x >> 56) as u8;
    assert((b0 as u64) | ((b1 as u64) << 8) | ((b2 as u64) << 16) | ((b3 as u64) << 24) | (
    (b4 as u64) << 32) | ((b5 as u64) << 40) | ((b6 as u64) << 48) | ((b7 as u64) << 56) == x)
        by (bit_vector)
        requires
            b0 == x as u8,
            b1 == (x >> 8) as u8,
            b2 == (x >> 16) as u8,
            b3 == (x >> 24) as u8,
            b4 == (x >> 32) as u8,
            b5 == (x >> 40) as u8,
            b6 == (x >> 48) as u8,
            b7 == (x >> 56) as u8,
    ;
    assert(b[0] == b0 && b[1] == b1 && b[2] == b2 && b[3] == b3 && b[4] == b4 && b[5] == b5 && b[6]
        == b6 && b[7] == b7);
    assert(b.skip(8) =~= rest);
}

/// A 32-byte hash read back is the hash written.
pub proof fn lemma_round_bytes32(h: Seq<u8>, rest: Seq<u8>)
    requires
        h.len() == 32,
    ensures
        dec_bytes32(h + rest) == Some((h, rest)),
{
    assert((h + rest).take(32) =~= h);
    assert((h + rest).skip(32) =~= rest);
}

/// Words read back are the words written.
pub proof fn lemma_round_words(ws: Seq<u32>, rest: Seq<u8>)
    ensures
        dec_words(enc_words(ws) + rest, ws.len()) == Some((ws, rest)),
    decreases ws.len(),
{
    if ws.len() == 0 {
        assert(enc_words(ws) + rest =~= rest);
        assert(Seq::<u32>::empty() =~= ws);
    } else {
        let w = ws.first();
        let tail = ws.drop_first();
        assert(enc_words(ws) + rest =~= u32_le_bytes(w) + (enc_words(tail) + rest));
        lemma_round_u32(w, enc_words(tail) + rest);
        lemma_round_words(tail, rest);
        assert(seq![w] + tail =~= ws);
    }
}

/// A length-prefixed byte string read back is the string written.
pub proof fn lemma_round_len_bytes(v: Seq<u8>, rest: Seq<u8>)
    requires
        v.len() < 0x1_0000_0000_0000_0000,
    ensures
        dec_len_bytes(enc_len_bytes(v) + rest) == Some((v, rest)),
{
    let n = v.len() as u64;
    assert(enc_len_bytes(v) + rest =~= u64_le_bytes(n) + (v + rest));
    lemma_round_u64(n, v + rest);
    assert((v + rest).take(n as int) =~= v);
    assert((v + rest).skip(n as int) =~= rest);
}

/// An optional byte string read back is the value written.
pub proof fn lemma_round_opt_bytes(o: Option<Seq<u8>>, rest: Seq<u8>)
    requires
        match o {
            Some(v) => v.len() < 0x1_0000_0000_0000_0000,
            None => true,
        },
    ensures
        dec_opt_bytes(enc_opt_bytes(o) + rest) == Some((o, rest)),
{
    match o {
        None => {
            assert((enc_opt_bytes(o) + rest)[0] == 0u8);
            assert((enc_opt_bytes(o) + rest).skip(1) =~= rest);
        },
        Some(v) => {
            let b = enc_opt_bytes(o) + rest;
            assert(b[0] == 1u8);
            assert(b.skip(1) =~= enc_len_bytes(v) + rest);
            lemma_round_len_bytes(v, rest);
        },
    }
}

/// A checkpoint read back is the checkpoint written.
pub proof fn lemma_round_checkpoint(c: CheckpointModel, rest: Seq<u8>)
    requires
        checkpoint_wf(c),
    ensures
        dec_checkpoint(enc_checkpoint(c) + rest) == Some((c, rest)),
{
    let after_hash = enc_opt_bytes(c.groth16_vk) + (enc_words(c.program_vk_hash) + rest);
    assert(enc_checkpoint(c) + rest =~= c.block_hash + after_hash);
    lemma_round_bytes32(c.block_hash, after_hash);
    lemma_round_opt_bytes(c.groth16_vk, enc_words(c.program_vk_hash) + rest);
    lemma_round_words(c.program_vk_hash, rest);
}

/// A run of checkpoints read back is the run written.
#[verifier::rlimit(100)]
#[verifier::spinoff_prover]
pub proof fn lemma_round_cp_seq(cs: Seq<CheckpointModel>, rest: Seq<u8>)
    requires
        forall|i: int| 0 <= i < cs.len() ==> checkpoint_wf(#[trigger] cs[i]),
    ensures
        dec_cp_seq(enc_cp_seq(cs) + rest, cs.len()) == Some((cs, rest)),
    decreases cs.len(),
{
    if cs.len() == 0 {
        assert(enc_cp_seq(cs) + rest =~= rest);
        assert(Seq::<CheckpointModel>::empty() =~= cs);
    } else {
        let c = cs.first();
        let tail = cs.drop_first();
        assert(enc_cp_seq(cs) + rest =~= enc_checkpoint(c) + (enc_cp_seq(tail) + rest));
        assert(checkpoint_wf(c)) by {
            assert(cs[0] == c);
        }
        lemma_round_checkpoint(c, enc_cp_seq(tail) + rest);
        assert forall|i: int| 0 <= i < tail.len() implies checkpoint_wf(#[trigger] tail[i]) by {
            assert(tail[i] == cs[i + 1]);
        }
        lemma_round_cp_seq(tail, rest);
        assert(seq![c] + tail =~= cs);
    }
}

/// A counted checkpoint list read back is the list written.
pub proof fn lemma_round_checkpoints(cs: Seq<CheckpointModel>, rest: Seq<u8>)
    requires
        cs.len() < 0x1_0000_0000_0000_0000,
        forall|i: int| 0 <= i < cs.len() ==> checkpoint_wf(#[trigger] cs[i]),
    ensures
        dec_checkpoints(enc_checkpoints(cs) + rest) == Some((cs, rest)),
{
    let n = cs.len() as u64;
    assert(enc_checkpoints(cs) + rest =~= u64_le_bytes(n) + (enc_cp_seq(cs) + rest));
    lemma_round_u64(n, enc_cp_seq(cs) + rest);
    lemma_round_cp_seq(cs, rest);
}

// ---------------------------------------------------------------------------
// Consumption: every successful read advances, so a count larger than the
// bytes left can never be satisfied.
// ---------------------------------------------------------------------------
/// Reading `n` words consumes exactly four bytes per word.
pub proof fn lemma_dec_words_len(b: Seq<u8>, n: nat)
    ensures
        match dec_words(b, n) {
            Some((vs, r)) => vs.len() == n && r.len() + 4 * n == b.len(),
            None => true,
        },
    decreases n,
{
    if n != 0 {
        match dec_u32(b) {
            None => {},
            Some((v, r)) => {
                lemma_dec_words_len(r, (n - 1) as nat);
            },
        }
    }
}

/// Reading one checkpoint consumes at least one byte.
pub proof fn lemma_dec_checkpoint_len(b: Seq<u8>)
    ensures
        match dec_checkpoint(b) {
            Some((c, r)) => r.len() < b.len(),
            None => true,
        },
{
    match dec_bytes32(b) {
        None => {},
        Some((hash, r1)) => {
            match dec_opt_bytes(r1) {
                None => {},
                Some((vk, r2)) => {
                    lemma_dec_words_len(r2, 8);
                    assert(r1.len() <= b.len() - 32);
                    assert(r2.len() < r1.len() || r2.len() <= r1.len() - 1);
                },
            }
        },
    }
}

/// Reading `n` checkpoints consumes at least `n` bytes.
pub proof fn lemma_dec_cp_seq_len(b: Seq<u8>, n: nat)
    ensures
        match dec_cp_seq(b, n) {
            Some((cs, r)) => cs.len() == n && r.len() + n <= b.len(),
            None => true,
        },
    decreases n,
{
    if n != 0 {
        lemma_dec_checkpoint_len(b);
        match dec_checkpoint(b) {
            None => {},
            Some((c, r)) => {
                lemma_dec_cp_seq_len(r, (n - 1) as nat);
            },
        }
    }
}

// ---------------------------------------------------------------------------
// Growth of the encoded forms under appends, for the writers' loops.
// ---------------------------------------------------------------------------
/// Appending a word appends its bytes.
pub proof fn lemma_enc_words_push(ws: Seq<u32>, v: u32)
    ensures
        enc_words(ws.push(v)) == enc_words(ws) + u32_le_bytes(v),
    decreases ws.len(),
{
    if ws.len() == 0 {
        assert(ws.push(v)[0] == v);
        assert(ws.push(v).drop_first() =~= Seq::<u32>::empty());
        assert(enc_words(Seq::<u32>::empty()) =~= Seq::<u8>::empty());
        assert(enc_words(ws.push(v)) =~= enc_words(ws) + u32_le_bytes(v));
    } else {
        assert(ws.push(v).first() == ws.first());
        assert(ws.push(v).drop_first() =~= ws.drop_first().push(v));
        lemma_enc_words_push(ws.drop_first(), v);
        assert(enc_words(ws.push(v)) == u32_le_bytes(ws.first()) + (enc_words(ws.drop_first())
            + u32_le_bytes(v)));
        assert(enc_words(ws.push(v)) =~= enc_words(ws) + u32_le_bytes(v));
    }
}

/// Appending a checkpoint appends its bytes.
pub proof fn lemma_enc_cp_seq_push(cs: Seq<CheckpointModel>, c: CheckpointModel)
    ensures
        enc_cp_seq(cs.push(c)) == enc_cp_seq(cs) + enc_checkpoint(c),
    decreases cs.len(),
{
    if cs.len() == 0 {
        assert(cs.push(c)[0] == c);
        assert(cs.push(c).drop_first() =~= Seq::<CheckpointModel>::empty());
        assert(enc_cp_seq(Seq::<CheckpointModel>::empty()) =~= Seq::<u8>::empty());
        assert(enc_cp_seq(cs.push(c)) =~= enc_cp_seq(cs) + enc_checkpoint(c));
    } else {
        assert(cs.push(c).first() == cs.first());
        assert(cs.push(c).drop_first() =~= cs.drop_first().push(c));
        lemma_enc_cp_seq_push(cs.drop_first(), c);
        assert(enc_cp_seq(cs.push(c)) == enc_checkpoint(cs.first()) + (enc_cp_seq(cs.drop_first())
            + enc_checkpoint(c)));
        assert(enc_cp_seq(cs.push(c)) =~= enc_cp_seq(cs) + enc_checkpoint(c));
    }
}

/// The model of an optional byte vector.
pub open spec fn view_opt_bytes(o: Option<Vec<u8>>) -> Option<Seq<u8>> {
    match o {
        Some(v) => Some(v@),
        None => None,
    }
}

// ---------------------------------------------------------------------------
// Writers: each appends the encoded form of one value to the output bytes.
// ---------------------------------------------------------------------------
/// Appends the four little-endian bytes of `x`.
pub fn encode_u32(out: &mut Vec<u8>, x: u32)
    ensures
        final(out)@ == old(out)@ + u32_le_bytes(x),
{
    out.push(#[verifier::truncate] (x as u8));
    out.push(#[verifier::truncate] ((x >> 8) as u8));
    out.push(#[verifier::truncate] ((x >> 16) as u8));
    out.push(#[verifier::truncate] ((x >> 24) as u8));
    proof {
        assert(out@ =~= old(out)@ + u32_le_bytes(x));
    }
}

/// Appends the eight little-endian bytes of `x`.
pub fn encode_u64(out: &mut Vec<u8>, x: u64)
    ensures
        final(out)@ == old(out)@ + u64_le_bytes(x),
{
    out.push(#[verifier::truncate] (x as u8));
    out.push(#[verifier::truncate] ((x >> 8) as u8));
    out.push(#[verifier::truncate] ((x >> 16) as u8));
    out.push(#[verifier::truncate] ((x >> 24) as u8));
    out.push(#[verifier::truncate] ((x >> 32) as u8));
    out.push(#[verifier::truncate] ((x >> 40) as u8));
    out.push(#[verifier::truncate] ((x >> 48) as u8));
    out.push(#[verifier::truncate] ((x >> 56) as u8));
    proof {
        assert(out@ =~= old(out)@ + u64_le_bytes(x));
    }
}

/// Appends a raw 32-byte hash.
pub fn encode_bytes32(out: &mut Vec<u8>, h: &[u8; 32])
    ensures
        final(out)@ == old(out)@ + h@,
{
    out.extend_from_slice(h.as_slice());
    proof {
        assert(out@ =~= old(out)@ + h@);
    }
}

/// Appends an eight-word digest, each word little-endian.
pub fn encode_digest(out: &mut Vec<u8>, d: &[u32; 8])
    ensures
        final(out)@ == old(out)@ + enc_words(d@),
{
    let ghost base = out@;
    proof {
        assert(enc_words(d@.take(0)) =~= Seq::<u8>::empty());
        assert(out@ =~= base + enc_words(d@.take(0)));
    }
    let mut i: usize = 0;
    while i < 8
        invariant
            i <= 8,
            out@ == base + enc_words(d@.take(i as int)),
        decreases 8 - i,
    {
        encode_u32(out, d[i]);
        proof {
            assert(d@.take(i as int).push(d@[i as int]) =~= d@.take(i + 1 as int));
            lemma_enc_words_push(d@.take(i as int), d[i as int]);
            assert(out@ =~= base + enc_words(d@.take(i + 1 as int)));
        }
        i += 1;
    }
    proof {
        assert(d@.take(8) =~= d@);
    }
}

/// Appends a length-prefixed byte string.
pub fn encode_len_bytes(out: &mut Vec<u8>, v: &Vec<u8>)
    ensures
        final(out)@ == old(out)@ + enc_len_bytes(v@),
{
    encode_u64(out, v.len() as u64);
    out.extend_from_slice(v.as_slice());
    proof {
        assert(out@ =~= old(out)@ + enc_len_bytes(v@));
    }
}

/// Appends an optional byte string.
pub fn encode_opt_bytes(out: &mut Vec<u8>, o: &Option<Vec<u8>>)
    ensures
        final(out)@ == old(out)@ + enc_opt_bytes(view_opt_bytes(*o)),
{
    match o {
        None => {
            out.push(0u8);
            proof {
                assert(out@ =~= old(out)@ + enc_opt_bytes(None));
            }
        },
        Some(v) => {
            out.push(1u8);
            encode_len_bytes(out, v);
            proof {
                assert(out@ =~= old(out)@ + enc_opt_bytes(Some(v@)));
            }
        },
    }
}

/// Appends one checkpoint.
pub fn encode_checkpoint(out: &mut Vec<u8>, c: &Groth16VkeyCheckpoint)
    ensures
        final(out)@ == old(out)@ + enc_checkpoint(c@),
{
    encode_bytes32(out, &c.block_hash);
    encode_opt_bytes(out, &c.groth16_vk);
    encode_digest(out, &c.program_vk_hash);
    proof {
        assert(out@ =~= old(out)@ + enc_checkpoint(c@));
    }
}

/// Appends a counted checkpoint list.
pub fn encode_checkpoints(out: &mut Vec<u8>, cs: &Vec<Groth16VkeyCheckpoint>)
    ensures
        final(out)@ == old(out)@ + enc_checkpoints(checkpoints_view(cs@)),
{
    encode_u64(out, cs.len() as u64);
    let ghost base = out@;
    proof {
        assert(checkpoints_view(cs@.take(0)) =~= Seq::<CheckpointModel>::empty());
        assert(enc_cp_seq(Seq::<CheckpointModel>::empty()) =~= Seq::<u8>::empty());
        assert(out@ =~= base + enc_cp_seq(checkpoints_view(cs@.take(0))));
    }
    let n = cs.len();
    let mut i: usize = 0;
    while i < n
        invariant
            i <= n,
            n == cs@.len(),
            out@ == base + enc_cp_seq(checkpoints_view(cs@.take(i as int))),
        decreases n - i,
    {
        encode_checkpoint(out, &cs[i]);
        proof {
            assert(checkpoints_view(cs@.take(i as int)).push(cs@[i as int]@) =~= checkpoints_view(
                cs@.take(i + 1 as int),
            ));
            lemma_enc_cp_seq_push(checkpoints_view(cs@.take(i as int)), cs@[i as int]@);
            assert(out@ =~= base + enc_cp_seq(checkpoints_view(cs@.take(i + 1 as int))));
        }
        i += 1;
    }
    proof {
        assert(cs@.take(n as int) =~= cs@);
        assert(checkpoints_view(cs@.take(n as int)) =~= checkpoints_view(cs@));
        assert(old(out)@ + enc_checkpoints(checkpoints_view(cs@)) =~= base + enc_cp_seq(
            checkpoints_view(cs@),
        ));
    }
}

// ---------------------------------------------------------------------------
// The reader: a buffer of bytes and a cursor over them.
// ---------------------------------------------------------------------------
/// A cursor-based reader over committed output bytes.  Values must be read
/// back in exactly the order and with exactly the types they were written
/// with; each successful read advances the cursor by the exact encoded size
/// of the value read, and a read past the end, or of a malformed value,
/// fails without yielding data.
#[derive(Clone, Debug, PartialEq, Eq)]
pub struct Buffer {
    /// The bytes being read.
    pub data: Vec<u8>,
    /// How many bytes have been consumed.
    pub ptr: usize,
}

impl Buffer {
    /// The bytes not yet consumed.
    pub open spec fn rest(&self) -> Seq<u8> {
        if self.ptr <= self.data@.len() {
            self.data@.skip(self.ptr as int)
        } else {
            Seq::empty()
        }
    }

    /// A fresh reader over a copy of `data`, with nothing yet consumed.
    pub fn from(data: &[u8]) -> (r: Self)
        ensures
            r.data@ == data@,
            r.ptr == 0,
            r.rest() == data@,
    {
        let r = Buffer { data: vstd::slice::slice_to_vec(data), ptr: 0 };
        proof {
            assert(r.rest() =~= data@);
        }
        r
    }

    /// Reads a 32-bit little-endian word.
    pub fn read_u32(&mut self) -> (r: Option<u32>)
        ensures
            final(self).data == old(self).data,
            (match dec_u32(old(self).rest()) {
                Some((v, rest)) => r == Some(v) && final(self).rest() == rest && final(self).ptr
                    == old(self).ptr + 4,
                None => r is None && final(self).ptr == old(self).ptr,
            }),
    {
        let n = self.data.len();
        if self.ptr > n || n - self.ptr < 4 {
            return None;
        }
        let p = self.ptr;
        let b0 = self.data[p];
        let b1 = self.data[p + 1];
        let b2 = self.data[p + 2];
        let b3 = self.data[p + 3];
        self.ptr = p + 4;
        let v = (b0 as u32) | ((b1 as u32) << 8) | ((b2 as u32) << 16) | ((b3 as u32) << 24);
        proof {
            let rest0 = old(self).rest();
            assert(rest0[0] == b0 && rest0[1] == b1 && rest0[2] == b2 && rest0[3] == b3);
            assert(le_word32(rest0) == v);
            assert(self.rest() =~= rest0.skip(4));
        }
        Some(v)
    }

    /// Reads a 64-bit little-endian word.
    pub fn read_u64(&mut self) -> (r: Option<u64>)
        ensures
            final(self).data == old(self).data,
            (match dec_u64(old(self).rest()) {
                Some((v, rest)) => r == Some(v) && final(self).rest() == rest && final(self).ptr
                    == old(self).ptr + 8,
                None => r is None && final(self).ptr == old(self).ptr,
            }),
    {
        let n = self.data.len();
        if self.ptr > n || n - self.ptr < 8 {
            return None;
        }
        let p = self.ptr;
        let b0 = self.data[p];
        let b1 = self.data[p + 1];
        let b2 = self.data[p + 2];
        let b3 = self.data[p + 3];
        let b4 = self.data[p + 4];
        let b5 = self.data[p + 5];
        let b6 = self.data[p + 6];
        let b7 = self.data[p + 7];
        self.ptr = p + 8;
        let v = (b0 as u64) | ((b1 as u64) << 8) | ((b2 as u64) << 16) | ((b3 as u64) << 24) | (
        (b4 as u64) << 32) | ((b5 as u64) << 40) | ((b6 as u64) << 48) | ((b7 as u64) << 56);
        proof {
            let rest0 = old(self).rest();
            assert(rest0[0] == b0 && rest0[1] == b1 && rest0[2] == b2 && rest0[3] == b3 && rest0[4]
                == b4 && rest0[5] == b5 && rest0[6] == b6 && rest0[7] == b7);
            assert(le_word64(rest0) == v);
            assert(self.rest() =~= rest0.skip(8));
        }
        Some(v)
    }

    /// Reads a raw 32-byte hash.
    pub fn read_bytes32(&mut self) -> (r: Option<[u8; 32]>)
        ensures
            final(self).data == old(self).data,
            (match dec_bytes32(old(self).rest()) {
                Some((h, rest)) => (match r {
                    Some(a) => a@ == h && final(self).rest() == rest && final(self).ptr == old(
                        self,
                    ).ptr + 32,
                    None => false,
                }),
                None => r is None && final(self).ptr == old(self).ptr,
            }),
    {
        let n = self.data.len();
        if self.ptr > n || n - self.ptr < 32 {
            return None;
        }
        let p = self.ptr;
        let mut out = [0u8; 32];
        let mut i: usize = 0;
        while i < 32
            invariant
                i <= 32,
                n == self.data@.len(),
                p + 32 <= n,
                out@.len() == 32,
                forall|j: int| 0 <= j < i ==> out@[j] == self.data@[p + j],
            decreases 32 - i,
        {
            out[i] = self.data[p + i];
            i += 1;
        }
        self.ptr = p + 32;
        proof {
            let rest0 = old(self).rest();
            assert(out@ =~= rest0.take(32));
            assert(self.rest() =~= rest0.skip(32));
        }
        Some(out)
    }

    /// Reads `n` 32-bit little-endian words.
    fn read_words_vec(&mut self, n: usize) -> (r: Option<Vec<u32>>)
        ensures
            final(self).data == old(self).data,
            (match dec_words(old(self).rest(), n as nat) {
                Some((vs, rest)) => (match r {
                    Some(v) => v@ == vs && final(self).rest() == rest,
                    None => false,
                }),
                None => r is None && final(self).ptr == old(self).ptr,
            }),
    {
        let ghost r0 = self.rest();
        let p0 = self.ptr;
        let mut out: Vec<u32> = Vec::new();
        let mut i: usize = 0;
        while i < n
            invariant
                i <= n,
                out@.len() == i,
                self.data == old(self).data,
                p0 == old(self).ptr,
                r0 == old(self).rest(),
                (match dec_words(self.rest(), (n - i) as nat) {
                    Some((vs, rest)) => dec_words(r0, n as nat) == Some::<(Seq<u32>, Seq<u8>)>(
                        (out@ + vs, rest),
                    ),
                    None => dec_words(r0, n as nat) is None,
                }),
            decreases n - i,
        {
            let ghost cur = self.rest();
            let ghost k = (n - i) as nat;
            proof {
                assert(dec_words(cur, k) == (match dec_u32(cur) {
                    None => None,
                    Some((v, r)) => match dec_words(r, (k - 1) as nat) {
                        None => None,
                        Some((vs, r2)) => Some((seq![v] + vs, r2)),
                    },
                }));
            }
            match self.read_u32() {
                None => {
                    self.ptr = p0;
                    return None;
                },
                Some(v) => {
                    let ghost out_pre = out@;
                    out.push(v);
                    i += 1;
                    proof {
                        match dec_words(self.rest(), (n - i) as nat) {
                            Some((vs, rest)) => {
                                assert(dec_words(cur, k) == Some::<(Seq<u32>, Seq<u8>)>(
                                    (seq![v] + vs, rest),
                                ));
                                assert(out_pre.push(v) + vs =~= out_pre + (seq![v] + vs));
                            },
                            None => {},
                        }
                    }
                },
            }
        }
        proof {
            assert(dec_words(self.rest(), 0) == Some::<(Seq<u32>, Seq<u8>)>(
                (Seq::empty(), self.rest()),
            ));
            assert(out@ + Seq::<u32>::empty() =~= out@);
        }
        Some(out)
    }

    /// Reads an eight-word digest.
    pub fn read_digest(&mut self) -> (r: Option<[u32; 8]>)
        ensures
            final(self).data == old(self).data,
            (match dec_words(old(self).rest(), 8) {
                Some((vs, rest)) => (match r {
                    Some(a) => a@ == vs && final(self).rest() == rest,
                    None => false,
                }),
                None => r is None && final(self).ptr == old(self).ptr,
            }),
    {
        proof {
            lemma_dec_words_len(old(self).rest(), 8);
        }
        match self.read_words_vec(8) {
            None => None,
            Some(v) => {
                let a = [v[0], v[1], v[2], v[3], v[4], v[5], v[6], v[7]];
                proof {
                    assert(a@ =~= v@);
                }
                Some(a)
            },
        }
    }

    /// Reads a length-prefixed byte string.
    pub fn read_len_bytes(&mut self) -> (r: Option<Vec<u8>>)
        ensures
            final(self).data == old(self).data,
            (match dec_len_bytes(old(self).rest()) {
                Some((v, rest)) => (match r {
                    Some(b) => b@ == v && final(self).rest() == rest,
                    None => false,
                }),
                None => r is None && final(self).ptr == old(self).ptr,
            }),
    {
        let p0 = self.ptr;
        let n = match self.read_u64() {
            None => {
                return None;
            },
            Some(n) => n,
        };
        let rem = if self.ptr <= self.data.len() {
            self.data.len() - self.ptr
        } else {
            0
        };
        proof {
            assert(rem as u64 as int == self.rest().len());
        }
        if n > rem as u64 {
            self.ptr = p0;
            return None;
        }
        let n_us = n as usize;
        let p = self.ptr;
        let dlen = self.data.len();
        let mut out: Vec<u8> = Vec::new();
        let mut i: usize = 0;
        while i < n_us
            invariant
                i <= n_us,
                out@.len() == i,
                dlen == self.data@.len(),
                p + n_us <= dlen,
                forall|j: int| 0 <= j < i ==> out@[j] == self.data@[p + j],
            decreases n_us - i,
        {
            out.push(self.data[p + i]);
            i += 1;
        }
        self.ptr = p + n_us;
        proof {
            let rest1 = old(self).rest().skip(8);
            assert(out@ =~= rest1.take(n as int));
            assert(self.rest() =~= rest1.skip(n as int));
        }
        Some(out)
    }

    /// Reads an optional byte string.
    pub fn read_opt_bytes(&mut self) -> (r: Option<Option<Vec<u8>>>)
        ensures
            final(self).data == old(self).data,
            (match dec_opt_bytes(old(self).rest()) {
                Some((o, rest)) => (match r {
                    Some(ro) => view_opt_bytes(ro) == o && final(self).rest() == rest,
                    None => false,
                }),
                None => r is None && final(self).ptr == old(self).ptr,
            }),
    {
        let p0 = self.ptr;
        let n = self.data.len();
        if p0 >= n {
            return None;
        }
        let tag = self.data[p0];
        self.ptr = p0 + 1;
        proof {
            assert(old(self).rest()[0] == tag);
            assert(self.rest() =~= old(self).rest().skip(1));
        }
        if tag == 0 {
            return Some(None);
        }
        if tag != 1 {
            self.ptr = p0;
            return None;
        }
        match self.read_len_bytes() {
            None => {
                self.ptr = p0;
                None
            },
            Some(v) => Some(Some(v)),
        }
    }

    /// Reads one checkpoint.
    pub fn read_checkpoint(&mut self) -> (r: Option<Groth16VkeyCheckpoint>)
        ensures
            final(self).data == old(self).data,
            (match dec_checkpoint(old(self).rest()) {
                Some((c, rest)) => (match r {
                    Some(rc) => rc@ == c && final(self).rest() == rest,
                    None => false,
                }),
                None => r is None && final(self).ptr == old(self).ptr,
            }),
    {
        let p0 = self.ptr;
        let hash = match self.read_bytes32() {
            None => {
                return None;
            },
            Some(h) => h,
        };
        let vk = match self.read_opt_bytes() {
            None => {
                self.ptr = p0;
                return None;
            },
            Some(o) => o,
        };
        let digest = match self.read_digest() {
            None => {
                self.ptr = p0;
                return None;
            },
            Some(d) => d,
        };
        Some(Groth16VkeyCheckpoint { block_hash: hash, groth16_vk: vk, program_vk_hash: digest })
    }

    /// Reads a counted checkpoint list.
    pub fn read_checkpoints(&mut self) -> (r: Option<Vec<Groth16VkeyCheckpoint>>)
        ensures
            final(self).data == old(self).data,
            (match dec_checkpoints(old(self).rest()) {
                Some((cs, rest)) => (match r {
                    Some(v) => checkpoints_view(v@) == cs && final(self).rest() == rest,
                    None => false,
                }),
                None => r is None && final(self).ptr == old(self).ptr,
            }),
    {
        let p0 = self.ptr;
        let n = match self.read_u64() {
            None => {
                return None;
            },
            Some(n) => n,
        };
        let ghost rest1 = self.rest();
        let rem = if self.ptr <= self.data.len() {
            self.data.len() - self.ptr
        } else {
            0
        };
        proof {
            assert(rem as u64 as int == rest1.len());
        }
        if n > rem as u64 {
            proof {
                lemma_dec_cp_seq_len(rest1, n as nat);
            }
            self.ptr = p0;
            return None;
        }
        let n_us = n as usize;
        let mut out: Vec<Groth16VkeyCheckpoint> = Vec::new();
        let mut i: usize = 0;
        while i < n_us
            invariant
                i <= n_us,
                out@.len() == i,
                self.data == old(self).data,
                p0 == old(self).ptr,
                rest1 == dec_u64_rest(old(self).rest()),
                n_us as nat == dec_u64_count(old(self).rest()),
                (match dec_cp_seq(self.rest(), (n_us - i) as nat) {
                    Some((cs, rest)) => dec_cp_seq(rest1, n_us as nat) == Some::<
                        (Seq<CheckpointModel>, Seq<u8>),
                    >((checkpoints_view(out@) + cs, rest)),
                    None => dec_cp_seq(rest1, n_us as nat) is None,
                }),
            decreases n_us - i,
        {
            let ghost cur = self.rest();
            let ghost k = (n_us - i) as nat;
            proof {
                assert(dec_cp_seq(cur, k) == (match dec_checkpoint(cur) {
                    None => None,
                    Some((c, r)) => match dec_cp_seq(r, (k - 1) as nat) {
                        None => None,
                        Some((cs, r2)) => Some((seq![c] + cs, r2)),
                    },
                }));
            }
            match self.read_checkpoint() {
                None => {
                    self.ptr = p0;
                    return None;
                },
                Some(c) => {
                    let ghost out_pre = out@;
                    let ghost cm = c@;
                    out.push(c);
                    i += 1;
                    proof {
                        assert(checkpoints_view(out@) =~= checkpoints_view(out_pre).push(cm));
                        match dec_cp_seq(self.rest(), (n_us - i) as nat) {
                            Some((cs, rest)) => {
                                assert(dec_cp_seq(cur, k) == Some::<(Seq<CheckpointModel>, Seq<u8>)>(
                                    (seq![cm] + cs, rest),
                                ));
                                assert(checkpoints_view(out_pre).push(cm) + cs =~= checkpoints_view(
                                    out_pre,
                                ) + (seq![cm] + cs));
                            },
                            None => {},
                        }
                    }
                },
            }
        }
        proof {
            assert(dec_cp_seq(self.rest(), 0) == Some::<(Seq<CheckpointModel>, Seq<u8>)>(
                (Seq::empty(), self.rest()),
            ));
            assert(checkpoints_view(out@) + Seq::<CheckpointModel>::empty() =~= checkpoints_view(
                out@,
            ));
        }
        Some(out)
    }
}

/// The count a 64-bit length prefix reads, as a count of items.
pub open spec fn dec_u64_count(b: Seq<u8>) -> nat {
    match dec_u64(b) {
        Some((n, r)) => n as nat,
        None => 0,
    }
}

/// The bytes after a 64-bit length prefix.
pub open spec fn dec_u64_rest(b: Seq<u8>) -> Seq<u8> {
    match dec_u64(b) {
        Some((n, r)) => r,
        None => Seq::empty(),
    }
}

} // verus!
