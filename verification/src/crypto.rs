use vstd::prelude::*;
use vstd::string::StringExecFns;
use vstd::utf8::is_ascii_chars;

use crate::codec::{enc_words, encode_digest};
use sha2::Digest;

verus! {

// This module holds the library's reliance on outside hashing and
// proof-checking code, each call behind one function whose contract states
// what the call's own documentation and source promise, and nothing more.

/// The SHA-256 digest of a byte sequence.  The digest depends on the bytes
/// alone; its value on given bytes is not stated here.
pub uninterp spec fn sha256_of(bytes: Seq<u8>) -> Seq<u8>;

/// Whether Groth16 proof verification accepts `proof` against the given
/// public inputs, verifying-key hash (as a hex string) and verifying-key
/// bytes.  Acceptance depends on the four arguments alone.
pub uninterp spec fn groth16_accepts(
    proof: Seq<u8>,
    public_inputs: Seq<u8>,
    vkey_hash_hex: Seq<char>,
    vk: Seq<u8>,
) -> bool;

/// The sixteen lower-case hex digits.
pub const HEX_CHARS: [char; 16] = [
    '0',
    '1',
    '2',
    '3',
    '4',
    '5',
    '6',
    '7',
    '8',
    '9',
    'a',
    'b',
    'c',
    'd',
    'e',
    'f',
];

/// The lower-case hex spelling of a byte sequence: two digits per byte,
/// high nibble first.
pub open spec fn hex_of(bytes: Seq<u8>) -> Seq<char>
    decreases bytes.len(),
{
    if bytes.len() == 0 {
        Seq::empty()
    } else {
        seq![
            HEX_CHARS@[(bytes.first() / 16) as int],
            HEX_CHARS@[(bytes.first() % 16) as int],
        ] + hex_of(bytes.drop_first())
    }
}

/// The hex string naming a verifying-key digest: a `0x` prefix, then the
/// digest's words laid out as little-endian bytes, in lower-case hex.
pub open spec fn vk_hex_of(d: Seq<u32>) -> Seq<char> {
    seq!['0', 'x'] + hex_of(enc_words(d))
}

/// Relies on sha2's `Sha256::digest`: the 32-byte digest of the input,
/// a function of the input bytes alone.
#[verifier::external_body]
fn sha256(bytes: &[u8]) -> (r: [u8; 32])
    ensures
        r@ == sha256_of(bytes@),
{
    sha2::Sha256::digest(bytes).into()
}

/// Relies on hex's `encode`: the lower-case hex spelling of the input,
/// two digits per byte, high nibble first.
#[verifier::external_body]
fn hex_encode(bytes: &[u8]) -> (r: String)
    ensures
        r@ == hex_of(bytes@),
{
    hex::encode(bytes)
}

/// Declares sp1-verifier's `Groth16Error`, the error its Groth16
/// verification returns on rejection, so it can stand in signatures here.
#[verifier::external_type_specification]
#[verifier::external_body]
pub struct ExGroth16Error(sp1_verifier::Groth16Error);

/// Relies on sp1-verifier's `Groth16Verifier::verify`: it accepts or
/// rejects deterministically from the proof bytes, the public inputs, the
/// verifying-key hash string and the verifying-key bytes, and returns its
/// own error kind on rejection.  The hash string must be ASCII: the
/// outside function slices it at a fixed byte offset, which panics when a
/// multi-byte character spans that offset.
#[verifier::external_body]
fn groth16_verify(proof: &[u8], public_inputs: &[u8], vkey_hash_hex: &str, vk: &[u8]) -> (r: Result<
    (),
    sp1_verifier::Groth16Error,
>)
    requires
        is_ascii_chars(vkey_hash_hex@),
    ensures
        r is Ok <==> groth16_accepts(proof@, public_inputs@, vkey_hash_hex@, vk@),
{
    sp1_verifier::Groth16Verifier::verify(proof, public_inputs, vkey_hash_hex, vk)
}

/// Every character a hex spelling uses is ASCII.
proof fn lemma_hex_of_ascii(bytes: Seq<u8>)
    ensures
        is_ascii_chars(hex_of(bytes)),
    decreases bytes.len(),
{
    if bytes.len() > 0 {
        lemma_hex_of_ascii(bytes.drop_first());
        let b = bytes.first();
        let head = seq![HEX_CHARS@[(b / 16) as int], HEX_CHARS@[(b % 16) as int]];
        assert forall|i: int| 0 <= i < 16 implies '\0' <= #[trigger] HEX_CHARS@[i] <= '\u{7f}' by {
            assert(HEX_CHARS@[i] == HEX_CHARS[i]);
        }
        assert forall|k: int| 0 <= k < hex_of(bytes).len() implies '\0' <= #[trigger] hex_of(
            bytes,
        )[k] <= '\u{7f}' by {
            if k < 2 {
                assert(hex_of(bytes)[k] == head[k]);
            } else {
                assert(hex_of(bytes)[k] == hex_of(bytes.drop_first())[k - 2]);
            }
        }
    }
}

/// The hex string naming a verifying-key digest is ASCII.
proof fn lemma_vk_hex_ascii(d: Seq<u32>)
    ensures
        is_ascii_chars(vk_hex_of(d)),
{
    lemma_hex_of_ascii(enc_words(d));
    assert forall|k: int| 0 <= k < vk_hex_of(d).len() implies '\0' <= #[trigger] vk_hex_of(d)[k]
        <= '\u{7f}' by {
        if k >= 2 {
            assert(vk_hex_of(d)[k] == hex_of(enc_words(d))[k - 2]);
        }
    }
}

/// The digest of a step's committed output bytes, as handed to proof
/// verification.
pub fn public_values_digest(bytes: &[u8]) -> (r: [u8; 32])
    ensures
        r@ == sha256_of(bytes@),
{
    sha256(bytes)
}

/// A verifying-key digest's words laid out as little-endian bytes.
pub fn digest_to_bytes(d: &[u32; 8]) -> (r: Vec<u8>)
    ensures
        r@ == enc_words(d@),
{
    let mut out: Vec<u8> = Vec::new();
    encode_digest(&mut out, d);
    out
}

/// The hex string naming a verifying-key digest.
pub fn vk_digest_hex(d: &[u32; 8]) -> (r: String)
    ensures
        r@ == vk_hex_of(d@),
{
    let bytes = digest_to_bytes(d);
    let h = hex_encode(bytes.as_slice());
    let mut s = String::from_str("0x");
    proof {
        reveal_strlit("0x");
    }
    s.append(h.as_str());
    proof {
        assert(s@ =~= vk_hex_of(d@));
    }
    s
}

/// Whether the Groth16 check passes for the given proof, committed output
/// digest, verifying-key digest and verifying-key bytes.
pub fn check_groth16(proof: &Vec<u8>, output_digest: &[u8; 32], vk_digest: &[u32; 8], vk: &Vec<u8>) -> (r:
    bool)
    ensures
        r == groth16_accepts(proof@, output_digest@, vk_hex_of(vk_digest@), vk@),
{
    let vk_hex = vk_digest_hex(vk_digest);
    proof {
        lemma_vk_hex_ascii(vk_digest@);
    }
    match groth16_verify(
        proof.as_slice(),
        output_digest.as_slice(),
        vk_hex.as_str(),
        vk.as_slice(),
    ) {
        Ok(()) => true,
        Err(_) => false,
    }
}

} // verus!
