//! Recursive light-header chain verification.
//!
//! A growing chain of block headers is anchored by recursively composed
//! proofs: each step attests that one header extension is valid and that the
//! previous step's proof was itself checked.  This crate holds the verified
//! core of that protocol:
//!
//! - [`step`]: the per-extension protocol and its guards — the hard core;
//! - [`checkpoint`]: the append-only ledger of verifying-key rotations;
//! - [`codec`]: the cursor-based byte layout of a step's committed output;
//! - [`output`]: the committed public output and its encoding;
//! - [`search`]: the binary-search selection of a minimal header path;
//! - [`headers`]: the header data the protocol reads, and its verdicts;
//! - [`crypto`]: the outside hashing and proof-checking calls relied upon;
//! - [`snapshots`]: naming of stored per-height header snapshots;
//! - [`errors`]: the failure kinds a step can report.

pub mod checkpoint;
pub mod codec;
pub mod crypto;
pub mod errors;
pub mod headers;
pub mod output;
pub mod search;
pub mod snapshots;
pub mod step;
