use vstd::prelude::*;

verus! {

/// Seconds added to the untrusted header's own time to obtain the time at
/// which trust-weighted verification is evaluated.
pub const VERIFICATION_TIME_BUFFER_SECS: u64 = 20;

/// A light block header reduced to the plain values the step protocol reads:
/// its height, its time (unix seconds), a reference to its validator set,
/// and its 32-byte content hash.  Immutable once fetched.
#[derive(Clone, Debug, PartialEq, Eq)]
pub struct LightHeader {
    /// Block height.
    pub height: u64,
    /// Header time as unix seconds.
    pub time: u64,
    /// Hash referencing the validator set that signed this header.
    pub validators_hash: [u8; 32],
    /// The header's own 32-byte content hash.
    pub hash: [u8; 32],
}

/// Parameters of trust-weighted header verification: the voting-power
/// threshold as a fraction, the maximum age of a trusted anchor, and the
/// tolerated clock drift.
#[derive(Clone, Copy, Debug, PartialEq, Eq, Structural)]
pub struct VerificationOptions {
    /// Numerator of the trust threshold fraction.
    pub trust_threshold_num: u64,
    /// Denominator of the trust threshold fraction.
    pub trust_threshold_den: u64,
    /// Maximum age, in seconds, of a previously-trusted header still
    /// eligible to anchor new verification.
    pub trusting_period_secs: u64,
    /// Tolerated clock drift in seconds.
    pub clock_drift_secs: u64,
}

impl Default for VerificationOptions {
    /// The standard options: a one-third trust threshold, a two-week
    /// trusting period, and no clock drift allowance.
    fn default() -> (r: Self)
        ensures
            r.trust_threshold_num == 1,
            r.trust_threshold_den == 3,
            r.trusting_period_secs == 14 * 24 * 60 * 60,
            r.clock_drift_secs == 0,
    {
        VerificationOptions {
            trust_threshold_num: 1,
            trust_threshold_den: 3,
            trusting_period_secs: 14 * 24 * 60 * 60,
            clock_drift_secs: 0,
        }
    }
}

/// Result of trust-weighted header verification.
#[derive(Clone, Debug, PartialEq, Eq)]
pub enum Verdict {
    /// The untrusted header is trusted from the anchor.
    Success,
    /// The anchor's validators do not carry enough voting power over the
    /// untrusted header; a closer anchor may.
    NotEnoughTrust,
    /// The untrusted header can never be trusted from this anchor, for the
    /// carried reason.
    Invalid(String),
}

impl Verdict {
    /// Only a `Success` verdict lets a step, or a path-search probe, accept
    /// the probed header.
    pub fn accepts(&self) -> (r: bool)
        ensures
            r == (self is Success),
    {
        match self {
            Verdict::Success => true,
            _ => false,
        }
    }
}

/// The time at which trust-weighted verification of `h` as the untrusted
/// header is evaluated: the header's own time plus a fixed buffer.  `None`
/// exactly when that sum does not fit in a `u64`.
pub fn verification_time(h: &LightHeader) -> (r: Option<u64>)
    ensures
        match r {
            Some(t) => t == h.time + VERIFICATION_TIME_BUFFER_SECS,
            None => h.time + VERIFICATION_TIME_BUFFER_SECS > u64::MAX,
        },
{
    h.time.checked_add(VERIFICATION_TIME_BUFFER_SECS)
}

} // verus!
