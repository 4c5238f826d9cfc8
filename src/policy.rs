//! The three fault policies. Each is an immutable record, normalised at
//! construction and copied into every connection.
//!
//! Probabilities are fixed-point numbers: `PROBABILITY_ONE` stands for 1.0,
//! so a probability `p` means `p / PROBABILITY_ONE`.
use vstd::prelude::*;

verus! {

/// The fixed-point value that stands for probability 1.0 (parts per billion).
pub const PROBABILITY_ONE: u32 = 1_000_000_000;

/// A probability argument clamped into `[0, PROBABILITY_ONE]`.
pub open spec fn clamp_probability(p: int) -> int {
    if p < 0 {
        0
    } else if p > PROBABILITY_ONE {
        PROBABILITY_ONE as int
    } else {
        p
    }
}

/// Clamps a fixed-point probability argument into `[0, PROBABILITY_ONE]`.
pub fn clamp_to_probability(p: i64) -> (r: u32)
    ensures
        r == clamp_probability(p as int),
{
    if p < 0 {
        0
    } else if p > PROBABILITY_ONE as i64 {
        PROBABILITY_ONE
    } else {
        p as u32
    }
}

/// A random range is usable when its lower end is not above its upper end.
pub open spec fn range_ordered(range: Option<(u64, u64)>) -> bool {
    match range {
        Some((lo, hi)) => lo <= hi,
        None => true,
    }
}

/// Added latency: a fixed part, an optional uniform random part (both ends
/// included), applied to a chunk with the given probability.
#[derive(Debug, Clone, Copy, PartialEq, Eq)]
pub struct LatencyConfig {
    pub enabled: bool,
    pub fixed_ms: u64,
    pub random_range: Option<(u64, u64)>,
    pub probability: u32,
}

/// Chunk loss: each chunk is dropped with `probability`; when `burst_size` is
/// set, a burst of `burst_size` consecutive drops starts with
/// `burst_probability` (a size of 0 acts as 1). A `probability` of 0 disables
/// the policy, bursts included.
#[derive(Debug, Clone, Copy, PartialEq, Eq)]
pub struct PacketLossConfig {
    pub enabled: bool,
    pub probability: u32,
    pub burst_size: Option<u32>,
    pub burst_probability: u32,
}

/// Bandwidth shaping: a token bucket of `burst_size` bytes refilled at
/// `limit_bps / 8` bytes per second; a limit of 0 means unlimited.
#[derive(Debug, Clone, Copy, PartialEq, Eq)]
pub struct BandwidthConfig {
    pub enabled: bool,
    pub limit_bps: u64,
    pub burst_size: u64,
}

impl LatencyConfig {
    pub open spec fn wf(self) -> bool {
        &&& self.probability <= PROBABILITY_ONE
        &&& range_ordered(self.random_range)
    }

    pub open spec fn spec_is_disabled(self) -> bool {
        !self.enabled || (self.fixed_ms == 0 && self.random_range.is_none())
    }

    /// Builds a latency policy; `probability` is fixed-point and is clamped.
    pub fn new(enabled: bool, fixed_ms: u64, random_range: Option<(u64, u64)>, probability: i64) -> (r: Self)
        requires
            range_ordered(random_range),
        ensures
            r.wf(),
            r.enabled == enabled,
            r.fixed_ms == fixed_ms,
            r.random_range == random_range,
            r.probability == clamp_probability(probability as int),
    {
        LatencyConfig { enabled, fixed_ms, random_range, probability: clamp_to_probability(probability) }
    }

    /// True when no chunk can ever be delayed by this policy.
    pub fn is_disabled(&self) -> (r: bool)
        ensures
            r == self.spec_is_disabled(),
    {
        !self.enabled || (self.fixed_ms == 0 && self.random_range.is_none())
    }
}

impl PacketLossConfig {
    pub open spec fn wf(self) -> bool {
        &&& self.probability <= PROBABILITY_ONE
        &&& self.burst_probability <= PROBABILITY_ONE
    }

    pub open spec fn spec_is_disabled(self) -> bool {
        !self.enabled || self.probability == 0
    }

    /// Builds a loss policy; both probabilities are fixed-point and are clamped.
    pub fn new(enabled: bool, probability: i64, burst_size: Option<u32>, burst_probability: i64) -> (r: Self)
        ensures
            r.wf(),
            r.enabled == enabled,
            r.probability == clamp_probability(probability as int),
            r.burst_size == burst_size,
            r.burst_probability == clamp_probability(burst_probability as int),
    {
        PacketLossConfig {
            enabled,
            probability: clamp_to_probability(probability),
            burst_size,
            burst_probability: clamp_to_probability(burst_probability),
        }
    }

    /// True when no chunk can ever be dropped by this policy.
    pub fn is_disabled(&self) -> (r: bool)
        ensures
            r == self.spec_is_disabled(),
    {
        !self.enabled || self.probability == 0
    }
}

impl BandwidthConfig {
    pub open spec fn spec_is_disabled(self) -> bool {
        !self.enabled || self.limit_bps == 0
    }

    pub fn new(enabled: bool, limit_bps: u64, burst_size: u64) -> (r: Self)
        ensures
            r == (BandwidthConfig { enabled, limit_bps, burst_size }),
    {
        BandwidthConfig { enabled, limit_bps, burst_size }
    }

    /// True when the shaper never delays.
    pub fn is_disabled(&self) -> (r: bool)
        ensures
            r == self.spec_is_disabled(),
    {
        !self.enabled || self.limit_bps == 0
    }
}

} // verus!
