//! The per-connection fault injector: a random stream, the burst-loss state
//! and a token bucket, with the decisions that the forwarder asks of it.
//!
//! Time enters as plain values: a clock reading is a count of nanoseconds on a
//! monotonic clock whose origin is the moment the injector was built.
use crate::policy::{BandwidthConfig, LatencyConfig, PacketLossConfig, PROBABILITY_ONE};
use rand::rngs::StdRng;
use rand::{Rng, SeedableRng};
use vstd::prelude::*;

verus! {

#[verifier::external_type_specification]
#[verifier::external_body]
pub struct ExStdRng(StdRng);

/// Relies on rand's `SeedableRng::from_entropy`: a generator seeded from the
/// operating system's entropy source. Nothing is promised of its stream.
#[verifier::external_body]
fn rng_from_entropy() -> StdRng {
    StdRng::from_entropy()
}

/// Relies on rand's `SeedableRng::seed_from_u64`: a generator whose stream is
/// fixed by the seed. Nothing is promised of the stream itself.
#[verifier::external_body]
fn rng_from_seed(seed: u64) -> StdRng {
    StdRng::seed_from_u64(seed)
}

/// Relies on rand's `Rng::gen_ratio`: true with chance `num / den`; its
/// documentation and source guarantee `true` when `num == den` and `false`
/// when `num == 0`, and it panics when `den == 0` or `num > den`.
#[verifier::external_body]
fn draw_ratio(rng: &mut StdRng, num: u32, den: u32) -> (r: bool)
    requires
        0 < den,
        num <= den,
    ensures
        num == 0 ==> !r,
        num == den ==> r,
{
    rng.gen_ratio(num, den)
}

/// Relies on rand's `Rng::gen_range` over an inclusive range: a value within
/// the range; it panics on an empty range.
#[verifier::external_body]
fn draw_inclusive(rng: &mut StdRng, lo: u64, hi: u64) -> (r: u64)
    requires
        lo <= hi,
    ensures
        lo <= r <= hi,
{
    rng.gen_range(lo..=hi)
}

/// What a draw with chance `p / PROBABILITY_ONE` can have returned: never true
/// at probability 0, always true at probability 1.
pub open spec fn draw_allowed(outcome: bool, p: u32) -> bool {
    &&& p == 0 ==> !outcome
    &&& p == PROBABILITY_ONE ==> outcome
}

/// Draws `true` with chance `p / PROBABILITY_ONE`.
fn draw_probability(rng: &mut StdRng, p: u32) -> (r: bool)
    requires
        p <= PROBABILITY_ONE,
    ensures
        draw_allowed(r, p),
{
    draw_ratio(rng, p, PROBABILITY_ONE)
}

/// The burst-loss state: whether a burst is running, and how many chunks of it
/// have been dropped so far.
#[derive(Debug, Clone, Copy, PartialEq, Eq)]
pub struct BurstState {
    pub in_burst: bool,
    pub counter: u32,
}

impl BurstState {
    /// The state of a fresh injector: no burst.
    pub open spec fn idle() -> BurstState {
        BurstState { in_burst: false, counter: 0 }
    }

    /// The state right after a burst of two or more chunks has been entered
    /// (a burst of one chunk ends on the chunk that enters it).
    pub open spec fn entered() -> BurstState {
        BurstState { in_burst: true, counter: 1 }
    }

    /// Outside a burst the counter is 0; inside one it counts the chunks
    /// dropped so far, from 1 up to one less than the burst size.
    pub open spec fn consistent_with(self, loss: PacketLossConfig) -> bool {
        &&& !self.in_burst ==> self.counter == 0
        &&& self.in_burst ==> match loss.burst_size {
            Some(k) => 1 <= self.counter < k,
            None => false,
        }
    }
}

/// One loss decision. `enter` is the outcome of the burst-entry draw and `hit`
/// that of the single-chunk draw; a draw that this step does not make is
/// ignored. Returns whether the chunk is dropped, and the next burst state.
pub open spec fn drop_step(loss: PacketLossConfig, s: BurstState, enter: bool, hit: bool) -> (bool, BurstState) {
    if loss.spec_is_disabled() {
        (false, s)
    } else {
        match loss.burst_size {
            Some(k) => if s.in_burst {
                if s.counter + 1 >= k {
                    (true, BurstState::idle())
                } else {
                    (true, BurstState { in_burst: true, counter: (s.counter + 1) as u32 })
                }
            } else if enter {
                if k <= 1 {
                    (true, BurstState::idle())
                } else {
                    (true, BurstState::entered())
                }
            } else {
                (hit, s)
            },
            None => (hit, s),
        }
    }
}

/// The loss decision for given draw outcomes.
pub fn decide_drop(loss: &PacketLossConfig, s: BurstState, enter: bool, hit: bool) -> (r: (bool, BurstState))
    requires
        s.consistent_with(*loss),
    ensures
        r == drop_step(*loss, s, enter, hit),
        r.1.consistent_with(*loss),
{
    if loss.is_disabled() {
        return (false, s);
    }
    match loss.burst_size {
        Some(k) => {
            if s.in_burst {
                let c = s.counter + 1;
                if c >= k {
                    (true, BurstState { in_burst: false, counter: 0 })
                } else {
                    (true, BurstState { in_burst: true, counter: c })
                }
            } else if enter {
                if k <= 1 {
                    (true, BurstState { in_burst: false, counter: 0 })
                } else {
                    (true, BurstState { in_burst: true, counter: 1 })
                }
            } else {
                (hit, s)
            }
        },
        None => (hit, s),
    }
}

/// The added delay in milliseconds, given the outcome of the probability-gate
/// draw (`gate`) and of the uniform draw from the random range (`extra`); a
/// draw that is not made is ignored. The sum saturates at `u64::MAX`.
pub open spec fn latency_delay(lat: LatencyConfig, gate: bool, extra: u64) -> u64 {
    if lat.spec_is_disabled() || !gate {
        0
    } else {
        let total = lat.fixed_ms + match lat.random_range {
            Some(_) => extra as int,
            None => 0int,
        };
        if total > u64::MAX {
            u64::MAX
        } else {
            total as u64
        }
    }
}

/// What the uniform draw from the random range can have returned.
pub open spec fn extra_allowed(lat: LatencyConfig, extra: u64) -> bool {
    match lat.random_range {
        Some((lo, hi)) => lo <= extra <= hi,
        None => true,
    }
}

/// The added delay for given draw outcomes.
pub fn delay_for_draws(lat: &LatencyConfig, gate: bool, extra: u64) -> (r: u64)
    ensures
        r == latency_delay(*lat, gate, extra),
{
    if lat.is_disabled() || !gate {
        return 0;
    }
    match lat.random_range {
        Some(_) => lat.fixed_ms.saturating_add(extra),
        None => lat.fixed_ms,
    }
}

/// Nanoseconds from `last` to `now`; zero when `now` is not later.
pub open spec fn elapsed_since(last: u64, now: u64) -> int {
    if now > last {
        now - last
    } else {
        0
    }
}

/// The balance after refilling up to `now`: `limit_bps` units per elapsed
/// nanosecond, never above the capacity.
pub open spec fn refilled_tokens(v: InjectorView, now: u64) -> int {
    let t = v.tokens + elapsed_since(v.last_refill, now) * v.bandwidth.limit_bps;
    if t > bucket_capacity(v.bandwidth) {
        bucket_capacity(v.bandwidth)
    } else {
        t
    }
}

/// The wait, in whole milliseconds, until a balance of `refilled` units covers
/// `bytes` bytes at `limit_bps / 8` bytes per second; saturates at `u64::MAX`.
pub open spec fn shaping_delay_ms(bw: BandwidthConfig, refilled: int, bytes: int) -> u64 {
    let deficit = bytes * TOKEN_UNITS_PER_BYTE - refilled;
    if deficit <= 0 {
        0
    } else {
        let q = deficit / (bw.limit_bps * 1_000_000);
        if q > u64::MAX {
            u64::MAX
        } else {
            q as u64
        }
    }
}

/// The balance after paying for `bytes` bytes; it may go negative (debt),
/// down to `DEBT_FLOOR`.
pub open spec fn debited_tokens(refilled: int, bytes: int) -> int {
    let t = refilled - bytes * TOKEN_UNITS_PER_BYTE;
    if t < DEBT_FLOOR {
        DEBT_FLOOR as int
    } else {
        t
    }
}

/// What the injector holds, as plain values.
pub struct InjectorView {
    pub latency: LatencyConfig,
    pub loss: PacketLossConfig,
    pub bandwidth: BandwidthConfig,
    pub burst: BurstState,
    /// Token-bucket balance in token units (see `TOKEN_UNITS_PER_BYTE`).
    pub tokens: i128,
    /// Clock reading of the last refill.
    pub last_refill: u64,
}

impl InjectorView {
    pub open spec fn wf(self) -> bool {
        &&& self.latency.wf()
        &&& self.loss.wf()
        &&& self.burst.consistent_with(self.loss)
        &&& DEBT_FLOOR <= self.tokens <= bucket_capacity(self.bandwidth)
    }
}

/// One byte is worth this many token units: 8 bits times 10^9 nanoseconds per
/// second, so that a limit of `limit_bps` refills exactly `limit_bps` units per
/// nanosecond.
pub const TOKEN_UNITS_PER_BYTE: i128 = 8_000_000_000;

/// The lowest balance the bucket records (-2^120 units, about 2^87 bytes of
/// debt); debt beyond it is not kept.
pub const DEBT_FLOOR: i128 = -1_329_227_995_784_915_872_903_807_060_280_344_576;

/// The bucket's capacity in token units.
pub open spec fn bucket_capacity(bw: BandwidthConfig) -> int {
    bw.burst_size * TOKEN_UNITS_PER_BYTE
}

/// Per-connection fault state.
pub struct FaultInjector {
    latency_config: LatencyConfig,
    packet_loss_config: PacketLossConfig,
    bandwidth_config: BandwidthConfig,
    rng: StdRng,
    burst: BurstState,
    bandwidth_tokens: i128,
    last_refill: u64,
}

impl View for FaultInjector {
    type V = InjectorView;

    closed spec fn view(&self) -> InjectorView {
        InjectorView {
            latency: self.latency_config,
            loss: self.packet_loss_config,
            bandwidth: self.bandwidth_config,
            burst: self.burst,
            tokens: self.bandwidth_tokens,
            last_refill: self.last_refill,
        }
    }
}

/// The state of an injector built at clock reading 0 from the three policies.
pub open spec fn fresh_view(latency: LatencyConfig, loss: PacketLossConfig, bandwidth: BandwidthConfig) -> InjectorView {
    InjectorView {
        latency,
        loss,
        bandwidth,
        burst: BurstState::idle(),
        tokens: bucket_capacity(bandwidth) as i128,
        last_refill: 0,
    }
}

impl FaultInjector {
    fn with_rng(latency_config: LatencyConfig, packet_loss_config: PacketLossConfig, bandwidth_config: BandwidthConfig, rng: StdRng) -> (r: Self)
        requires
            latency_config.wf(),
            packet_loss_config.wf(),
        ensures
            r@ == fresh_view(latency_config, packet_loss_config, bandwidth_config),
            r@.wf(),
    {
        assert(bandwidth_config.burst_size * TOKEN_UNITS_PER_BYTE <= u64::MAX * 8_000_000_000) by (nonlinear_arith)
            requires bandwidth_config.burst_size <= u64::MAX;
        FaultInjector {
            latency_config,
            packet_loss_config,
            bandwidth_config,
            rng,
            burst: BurstState { in_burst: false, counter: 0 },
            bandwidth_tokens: bandwidth_config.burst_size as i128 * TOKEN_UNITS_PER_BYTE,
            last_refill: 0,
        }
    }

    /// A fresh injector whose random stream is seeded from the operating system.
    pub fn new(latency_config: LatencyConfig, packet_loss_config: PacketLossConfig, bandwidth_config: BandwidthConfig) -> (r: Self)
        requires
            latency_config.wf(),
            packet_loss_config.wf(),
        ensures
            r@ == fresh_view(latency_config, packet_loss_config, bandwidth_config),
            r@.wf(),
    {
        Self::with_rng(latency_config, packet_loss_config, bandwidth_config, rng_from_entropy())
    }

    /// A fresh injector whose random stream is fixed by `seed`, for runs that
    /// must repeat.
    pub fn with_seed(latency_config: LatencyConfig, packet_loss_config: PacketLossConfig, bandwidth_config: BandwidthConfig, seed: u64) -> (r: Self)
        requires
            latency_config.wf(),
            packet_loss_config.wf(),
        ensures
            r@ == fresh_view(latency_config, packet_loss_config, bandwidth_config),
            r@.wf(),
    {
        Self::with_rng(latency_config, packet_loss_config, bandwidth_config, rng_from_seed(seed))
    }

    pub fn latency_config(&self) -> (r: LatencyConfig)
        ensures
            r == self@.latency,
    {
        self.latency_config
    }

    pub fn packet_loss_config(&self) -> (r: PacketLossConfig)
        ensures
            r == self@.loss,
    {
        self.packet_loss_config
    }

    pub fn bandwidth_config(&self) -> (r: BandwidthConfig)
        ensures
            r == self@.bandwidth,
    {
        self.bandwidth_config
    }

    pub fn burst_state(&self) -> (r: BurstState)
        ensures
            r == self@.burst,
    {
        self.burst
    }

    /// The random part of a delay plus the fixed part.
    fn calculate_delay(&mut self) -> (r: u64)
        requires
            old(self)@.wf(),
            !old(self)@.latency.spec_is_disabled(),
        ensures
            final(self)@ == old(self)@,
            exists|extra: u64| #[trigger] latency_delay(old(self)@.latency, true, extra) == r && extra_allowed(old(self)@.latency, extra),
    {
        let extra = match self.latency_config.random_range {
            Some((lo, hi)) => draw_inclusive(&mut self.rng, lo, hi),
            None => 0,
        };
        delay_for_draws(&self.latency_config, true, extra)
    }

    /// The delay in milliseconds to add before forwarding the current chunk.
    pub fn next_latency_ms(&mut self) -> (r: u64)
        requires
            old(self)@.wf(),
        ensures
            final(self)@ == old(self)@,
            exists|gate: bool, extra: u64|
                {
                    &&& #[trigger] latency_delay(old(self)@.latency, gate, extra) == r
                    &&& draw_allowed(gate, old(self)@.latency.probability)
                    &&& extra_allowed(old(self)@.latency, extra)
                },
    {
        let ghost lat = self@.latency;
        if self.latency_config.is_disabled() {
            proof {
                let gate = lat.probability == PROBABILITY_ONE;
                let extra: u64 = match lat.random_range {
                    Some((lo, hi)) => lo,
                    None => 0,
                };
                assert(latency_delay(lat, gate, extra) == 0);
            }
            return 0;
        }
        if self.latency_config.probability < PROBABILITY_ONE {
            let gate = draw_probability(&mut self.rng, self.latency_config.probability);
            if !gate {
                proof {
                    let extra: u64 = match lat.random_range {
                        Some((lo, hi)) => lo,
                        None => 0,
                    };
                    assert(latency_delay(lat, false, extra) == 0);
                }
                return 0;
            }
        }
        self.calculate_delay()
    }

    /// Refills the bucket up to clock reading `now`, pays for `bytes` bytes,
    /// and returns how many milliseconds to wait before forwarding them.
    pub fn throttle_delay_ms(&mut self, bytes: usize, now: u64) -> (r: u64)
        requires
            old(self)@.wf(),
        ensures
            final(self)@.wf(),
            old(self)@.bandwidth.spec_is_disabled() ==> r == 0 && final(self)@ == old(self)@,
            !old(self)@.bandwidth.spec_is_disabled() ==> {
                &&& r == shaping_delay_ms(old(self)@.bandwidth, refilled_tokens(old(self)@, now), bytes as int)
                &&& final(self)@ == (InjectorView {
                    tokens: debited_tokens(refilled_tokens(old(self)@, now), bytes as int) as i128,
                    last_refill: now,
                    ..old(self)@
                })
            },
    {
        if self.bandwidth_config.is_disabled() {
            return 0;
        }
        let limit = self.bandwidth_config.limit_bps;
        let burst = self.bandwidth_config.burst_size;
        let tokens = self.bandwidth_tokens;
        proof {
            assert(burst * TOKEN_UNITS_PER_BYTE <= u64::MAX * 8_000_000_000) by (nonlinear_arith)
                requires burst <= u64::MAX;
        }
        let cap: i128 = burst as i128 * TOKEN_UNITS_PER_BYTE;
        let elapsed: u64 = if now > self.last_refill { now - self.last_refill } else { 0 };
        proof {
            assert(elapsed * limit <= u64::MAX * u64::MAX) by (nonlinear_arith)
                requires elapsed <= u64::MAX, limit <= u64::MAX;
        }
        let add: u128 = elapsed as u128 * limit as u128;
        let gap: i128 = cap - tokens;
        let refilled: i128 = if add >= gap as u128 { cap } else { tokens + add as i128 };
        assert(refilled == refilled_tokens(old(self)@, now));
        let need: i128 = bytes as i128 * TOKEN_UNITS_PER_BYTE;
        let deficit: i128 = need - refilled;
        let delay: u64 = if deficit <= 0 {
            0
        } else {
            let q: u128 = deficit as u128 / (limit as u128 * 1_000_000);
            if q > u64::MAX as u128 { u64::MAX } else { q as u64 }
        };
        let after: i128 = refilled - need;
        self.bandwidth_tokens = if after < DEBT_FLOOR { DEBT_FLOOR } else { after };
        self.last_refill = now;
        delay
    }

    /// Records the clock reading at which a shaping wait ended: the wait
    /// itself earns no tokens.
    pub fn resume_after_throttle(&mut self, now: u64)
        requires
            old(self)@.wf(),
        ensures
            final(self)@.wf(),
            final(self)@ == (InjectorView { last_refill: now, ..old(self)@ }),
    {
        self.last_refill = now;
    }

    /// Decides whether the current chunk is dropped, advancing the burst state.
    pub fn should_drop_packet(&mut self) -> (r: bool)
        requires
            old(self)@.wf(),
        ensures
            final(self)@.wf(),
            final(self)@ == (InjectorView { burst: final(self)@.burst, ..old(self)@ }),
            exists|enter: bool, hit: bool|
                {
                    &&& #[trigger] drop_step(old(self)@.loss, old(self)@.burst, enter, hit) == (r, final(self)@.burst)
                    &&& draw_allowed(enter, old(self)@.loss.burst_probability)
                    &&& draw_allowed(hit, old(self)@.loss.probability)
                },
    {
        if self.packet_loss_config.is_disabled() {
            let ghost enter = self@.loss.burst_probability == PROBABILITY_ONE;
            let ghost hit = self@.loss.probability == PROBABILITY_ONE;
            assert(drop_step(self@.loss, self@.burst, enter, hit) == (false, self@.burst));
            return false;
        }
        let loss = self.packet_loss_config;
        let s = self.burst;
        let enter = if loss.burst_size.is_some() && !s.in_burst {
            draw_probability(&mut self.rng, loss.burst_probability)
        } else {
            loss.burst_probability == PROBABILITY_ONE
        };
        let hit = if loss.burst_size.is_none() || (!s.in_burst && !enter) {
            draw_probability(&mut self.rng, loss.probability)
        } else {
            loss.probability == PROBABILITY_ONE
        };
        let (dropped, next) = decide_drop(&loss, s, enter, hit);
        self.burst = next;
        dropped
    }
}

} // verus!
