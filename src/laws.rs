//! Properties of the fault decisions, stated over the spec functions that the
//! injector's and the forwarder's contracts use, and proved.
use crate::forwarder::{chunk_outcome, ChunkAction};
use crate::injector::{
    bucket_capacity, debited_tokens, draw_allowed, drop_step, latency_delay, refilled_tokens,
    shaping_delay_ms, BurstState, InjectorView, DEBT_FLOOR, TOKEN_UNITS_PER_BYTE,
};
use crate::policy::{LatencyConfig, PacketLossConfig, PROBABILITY_ONE};
use vstd::prelude::*;

verus! {

/// With loss disabled, every non-empty chunk that is read is delivered, and
/// the burst state does not move.
pub proof fn lemma_no_loss_delivers_every_chunk(v: InjectorView, enter: bool, hit: bool, gate: bool, extra: u64)
    requires
        v.loss.spec_is_disabled(),
    ensures
        chunk_outcome(v, enter, hit, gate, extra).0 is Deliver,
        chunk_outcome(v, enter, hit, gate, extra).1 == v.burst,
{
}

/// With latency disabled, a chunk that is not dropped is delivered without
/// any added wait.
pub proof fn lemma_no_latency_no_wait(v: InjectorView, enter: bool, hit: bool, gate: bool, extra: u64)
    requires
        v.latency.spec_is_disabled(),
    ensures
        chunk_outcome(v, enter, hit, gate, extra).0 == ChunkAction::Discard
            || chunk_outcome(v, enter, hit, gate, extra).0 == (ChunkAction::Deliver { latency_ms: 0 }),
{
}

/// Without bursts, a chunk is dropped exactly when the single-chunk draw,
/// made with chance `probability / PROBABILITY_ONE`, comes up (and loss is
/// enabled); nothing else enters the decision.
pub proof fn lemma_single_loss_is_the_draw(loss: PacketLossConfig, s: BurstState, enter: bool, hit: bool)
    requires
        loss.burst_size.is_none(),
    ensures
        drop_step(loss, s, enter, hit) == (hit && !loss.spec_is_disabled(), s),
{
}

/// With bursts of any size and a burst probability of 1, every chunk is
/// dropped, whatever state the injector is in.
pub proof fn lemma_certain_burst_drops_every_chunk(loss: PacketLossConfig, s: BurstState, enter: bool, hit: bool)
    requires
        !loss.spec_is_disabled(),
        loss.burst_size.is_some(),
        loss.burst_probability == PROBABILITY_ONE,
        draw_allowed(enter, loss.burst_probability),
    ensures
        drop_step(loss, s, enter, hit).0,
{
}

/// The decisions and the final burst state of a run of loss decisions, one
/// per pair of draw outcomes (burst entry, single chunk).
pub open spec fn run_drops(loss: PacketLossConfig, s: BurstState, rolls: Seq<(bool, bool)>) -> (Seq<bool>, BurstState)
    decreases rolls.len(),
{
    if rolls.len() == 0 {
        (Seq::empty(), s)
    } else {
        let step = drop_step(loss, s, rolls[0].0, rolls[0].1);
        let rest = run_drops(loss, step.1, rolls.drop_first());
        (seq![step.0] + rest.0, rest.1)
    }
}

proof fn lemma_burst_tail(loss: PacketLossConfig, k: u32, c: u32, rolls: Seq<(bool, bool)>)
    requires
        !loss.spec_is_disabled(),
        loss.burst_size == Some(k),
        1 <= c < k,
        rolls.len() == k - c,
    ensures
        forall|i: int| 0 <= i < rolls.len() ==> #[trigger] run_drops(loss, BurstState { in_burst: true, counter: c }, rolls).0[i],
        run_drops(loss, BurstState { in_burst: true, counter: c }, rolls).0.len() == rolls.len(),
        run_drops(loss, BurstState { in_burst: true, counter: c }, rolls).1 == BurstState::idle(),
    decreases k - c,
{
    let s = BurstState { in_burst: true, counter: c };
    let rest = rolls.drop_first();
    if c + 1 < k {
        lemma_burst_tail(loss, k, (c + 1) as u32, rest);
    } else {
        assert(rest.len() == 0);
    }
    let step = drop_step(loss, s, rolls[0].0, rolls[0].1);
    let tail = run_drops(loss, step.1, rest);
    assert(run_drops(loss, s, rolls).0 == seq![step.0] + tail.0);
    assert forall|i: int| 0 <= i < rolls.len() implies #[trigger] run_drops(loss, s, rolls).0[i] by {
        if i > 0 {
            assert(run_drops(loss, s, rolls).0[i] == tail.0[i - 1]);
        }
    }
}

/// A burst of size `k >= 1` drops exactly `k` chunks: the chunk that enters
/// it, then the next `k - 1` whatever the draws, after which the injector is
/// out of burst mode with its counter reset, so the following chunk draws
/// for entry again.
pub proof fn lemma_burst_drops_exactly_k(loss: PacketLossConfig, k: u32, hit: bool, rolls: Seq<(bool, bool)>)
    requires
        !loss.spec_is_disabled(),
        loss.burst_size == Some(k),
        k >= 1,
        rolls.len() == k - 1,
    ensures
        drop_step(loss, BurstState::idle(), true, hit).0,
        run_drops(loss, drop_step(loss, BurstState::idle(), true, hit).1, rolls).0.len() == k - 1,
        forall|i: int| 0 <= i < k - 1 ==> #[trigger] run_drops(loss, drop_step(loss, BurstState::idle(), true, hit).1, rolls).0[i],
        run_drops(loss, drop_step(loss, BurstState::idle(), true, hit).1, rolls).1 == BurstState::idle(),
{
    if k >= 2 {
        lemma_burst_tail(loss, k, 1, rolls);
    } else {
        assert(rolls.len() == 0);
    }
}

/// With no random range and probability 1, an enabled latency policy delays
/// every chunk by exactly `fixed_ms`.
pub proof fn lemma_fixed_latency_is_exact(lat: LatencyConfig, gate: bool, extra: u64)
    requires
        lat.enabled,
        lat.random_range.is_none(),
        lat.probability == PROBABILITY_ONE,
        draw_allowed(gate, lat.probability),
    ensures
        latency_delay(lat, gate, extra) == lat.fixed_ms,
{
}

/// With probability 0, the latency policy never delays.
pub proof fn lemma_zero_probability_never_delays(lat: LatencyConfig, gate: bool, extra: u64)
    requires
        lat.probability == 0,
        draw_allowed(gate, lat.probability),
    ensures
        latency_delay(lat, gate, extra) == 0,
{
}

/// The shaper's credit since clock reading `start`, in token units: the
/// bucket's capacity, plus `limit_bps` units for every nanosecond up to the
/// last refill, minus the balance.
pub open spec fn shaping_budget(v: InjectorView, start: int) -> int {
    bucket_capacity(v.bandwidth) + v.bandwidth.limit_bps * (v.last_refill - start) - v.tokens
}

/// A fresh injector starts with no credit spent: its budget since clock
/// reading 0 is zero.
pub proof fn lemma_budget_starts_at_zero(v: InjectorView)
    requires
        v.tokens == bucket_capacity(v.bandwidth),
        v.last_refill == 0,
    ensures
        shaping_budget(v, 0) == 0,
{
}

/// Ending a shaping wait later on the clock never takes credit away.
pub proof fn lemma_resume_keeps_budget(v: InjectorView, start: int, now: u64)
    requires
        v.last_refill <= now,
    ensures
        shaping_budget(InjectorView { last_refill: now, ..v }, start) >= shaping_budget(v, start),
{
    assert(v.bandwidth.limit_bps * (now - start) >= v.bandwidth.limit_bps * (v.last_refill - start)) by (nonlinear_arith)
        requires
            v.last_refill <= now,
            v.bandwidth.limit_bps >= 0,
    ;
}

/// The token bucket's long-run bound. Let `consumed` be what the shaper has
/// let through since clock reading `start` (in token units, as
/// `TOKEN_UNITS_PER_BYTE` per byte), within its budget. After a chunk of
/// `bytes` bytes is shaped at clock reading `now`, everything let through,
/// that chunk included, is still within the new budget; and by the end of the
/// returned wait (give or take the millisecond that the wait rounds down) it
/// is at most the capacity plus the refill rate times the time elapsed since
/// `start`. Clock readings are monotonic, and the balance stays above
/// `DEBT_FLOOR`.
pub proof fn lemma_shaping_within_rate(v: InjectorView, start: int, consumed: int, bytes: int, now: u64)
    requires
        v.wf(),
        !v.bandwidth.spec_is_disabled(),
        start <= v.last_refill <= now,
        0 <= bytes,
        consumed <= shaping_budget(v, start),
        refilled_tokens(v, now) - bytes * TOKEN_UNITS_PER_BYTE >= DEBT_FLOOR,
        shaping_delay_ms(v.bandwidth, refilled_tokens(v, now), bytes) < u64::MAX,
    ensures
        consumed + bytes * TOKEN_UNITS_PER_BYTE <= shaping_budget(
            InjectorView {
                tokens: debited_tokens(refilled_tokens(v, now), bytes) as i128,
                last_refill: now,
                ..v
            },
            start,
        ),
        consumed + bytes * TOKEN_UNITS_PER_BYTE <= bucket_capacity(v.bandwidth) + v.bandwidth.limit_bps * (
        now + (shaping_delay_ms(v.bandwidth, refilled_tokens(v, now), bytes) + 1) * 1_000_000 - start),
{
    let l = v.bandwidth.limit_bps as int;
    let r = refilled_tokens(v, now);
    let need = bytes * TOKEN_UNITS_PER_BYTE;
    let cap = bucket_capacity(v.bandwidth);
    let d = shaping_delay_ms(v.bandwidth, r, bytes) as int;
    assert(l * (now - start) == l * (v.last_refill - start) + l * (now - v.last_refill)) by (nonlinear_arith);
    assert(crate::injector::elapsed_since(v.last_refill, now) == now - v.last_refill);
    assert(crate::injector::elapsed_since(v.last_refill, now) * v.bandwidth.limit_bps == l * (now - v.last_refill))
        by (nonlinear_arith)
        requires
            crate::injector::elapsed_since(v.last_refill, now) == now - v.last_refill,
            l == v.bandwidth.limit_bps,
    ;
    assert(r <= v.tokens + l * (now - v.last_refill));
    assert(consumed + need <= cap + l * (now - start) + (need - r));
    let deficit = need - r;
    let w = l * 1_000_000;
    assert(l * (now + (d + 1) * 1_000_000 - start) == l * (now - start) + (d + 1) * w) by (nonlinear_arith)
        requires w == l * 1_000_000;
    if deficit > 0 {
        assert(w > 0) by (nonlinear_arith) requires l > 0, w == l * 1_000_000;
        assert(d == deficit / w);
        assert(deficit < (d + 1) * w) by (nonlinear_arith)
            requires d == deficit / w, w > 0, deficit > 0;
    } else {
        assert((d + 1) * w >= 0) by (nonlinear_arith) requires d >= 0, w >= 0;
    }
}

/// The state after shaping a chunk of `bytes` bytes at clock reading `now`.
pub open spec fn throttled(v: InjectorView, bytes: int, now: u64) -> InjectorView {
    InjectorView { tokens: debited_tokens(refilled_tokens(v, now), bytes) as i128, last_refill: now, ..v }
}

/// The wait, in milliseconds, for a chunk of `bytes` bytes shaped at `now`.
pub open spec fn chunk_wait(v: InjectorView, bytes: int, now: u64) -> u64 {
    shaping_delay_ms(v.bandwidth, refilled_tokens(v, now), bytes)
}

/// One shaped chunk: its size, the clock reading at which it was shaped, and
/// the clock reading at which its wait ended (read only when it had one).
pub struct ShapedChunk {
    pub bytes: nat,
    pub at: u64,
    pub resumed: u64,
}

/// The state after one shaped chunk, its wait included.
pub open spec fn after_chunk(v: InjectorView, c: ShapedChunk) -> InjectorView {
    let w = throttled(v, c.bytes as int, c.at);
    if chunk_wait(v, c.bytes as int, c.at) > 0 {
        InjectorView { last_refill: c.resumed, ..w }
    } else {
        w
    }
}

/// The clock reading at which a shaped chunk is released for writing.
pub open spec fn release_time(v: InjectorView, c: ShapedChunk) -> int {
    if chunk_wait(v, c.bytes as int, c.at) > 0 {
        c.resumed as int
    } else {
        c.at as int
    }
}

/// A run of shaped chunks as the forwarder drives it: clock readings never go
/// back, each wait is served in full before its chunk is released, the
/// balance stays above `DEBT_FLOOR` and no wait saturates.
pub open spec fn valid_run(v: InjectorView, calls: Seq<ShapedChunk>) -> bool
    decreases calls.len(),
{
    if calls.len() == 0 {
        true
    } else {
        let c = calls[0];
        let d = chunk_wait(v, c.bytes as int, c.at);
        &&& v.last_refill <= c.at
        &&& d > 0 ==> c.resumed >= c.at + d * 1_000_000
        &&& refilled_tokens(v, c.at) - c.bytes * TOKEN_UNITS_PER_BYTE >= DEBT_FLOOR
        &&& d < u64::MAX
        &&& valid_run(after_chunk(v, c), calls.drop_first())
    }
}

/// The bytes of a run.
pub open spec fn run_bytes(calls: Seq<ShapedChunk>) -> int
    decreases calls.len(),
{
    if calls.len() == 0 {
        0
    } else {
        calls[0].bytes + run_bytes(calls.drop_first())
    }
}

/// The release time of a run's last chunk.
pub open spec fn run_end(v: InjectorView, calls: Seq<ShapedChunk>) -> int
    decreases calls.len(),
{
    if calls.len() <= 1 {
        if calls.len() == 1 {
            release_time(v, calls[0])
        } else {
            v.last_refill as int
        }
    } else {
        run_end(after_chunk(v, calls[0]), calls.drop_first())
    }
}

proof fn lemma_run_within_budget(v: InjectorView, start: int, consumed: int, calls: Seq<ShapedChunk>)
    requires
        v.wf(),
        !v.bandwidth.spec_is_disabled(),
        start <= v.last_refill,
        consumed <= shaping_budget(v, start),
        valid_run(v, calls),
        calls.len() > 0,
    ensures
        consumed + run_bytes(calls) * TOKEN_UNITS_PER_BYTE <= bucket_capacity(v.bandwidth) + v.bandwidth.limit_bps * (
        run_end(v, calls) + 1_000_000 - start),
    decreases calls.len(),
{
    let c = calls[0];
    let rest = calls.drop_first();
    let b = c.bytes as int;
    let l = v.bandwidth.limit_bps as int;
    let cap = bucket_capacity(v.bandwidth);
    let d = chunk_wait(v, b, c.at) as int;
    let w = throttled(v, b, c.at);
    let v2 = after_chunk(v, c);
    let e = release_time(v, c);
    let next = consumed + b * TOKEN_UNITS_PER_BYTE;
    lemma_shaping_within_rate(v, start, consumed, b, c.at);
    assert(e >= c.at + d * 1_000_000);
    assert(l * (c.at + (d + 1) * 1_000_000 - start) <= l * (e + 1_000_000 - start)) by (nonlinear_arith)
        requires
            e >= c.at + d * 1_000_000,
            l >= 0,
    ;
    if rest.len() == 0 {
        assert(run_bytes(calls) == b + run_bytes(rest));
    } else {
        if d > 0 {
            lemma_resume_keeps_budget(w, start, c.resumed);
        }
        assert(v.bandwidth.burst_size * TOKEN_UNITS_PER_BYTE <= u64::MAX * 8_000_000_000) by (nonlinear_arith)
            requires v.bandwidth.burst_size <= u64::MAX;
        assert(v2.wf());
        lemma_run_within_budget(v2, start, next, rest);
        assert(run_end(v, calls) == run_end(v2, rest));
        assert(run_bytes(calls) == b + run_bytes(rest));
        assert(consumed + run_bytes(calls) * TOKEN_UNITS_PER_BYTE == next + run_bytes(rest) * TOKEN_UNITS_PER_BYTE)
            by (nonlinear_arith)
            requires
                run_bytes(calls) == b + run_bytes(rest),
                next == consumed + b * TOKEN_UNITS_PER_BYTE,
        ;
    }
}

/// The token bucket's bound over any run of chunks. From any state of an
/// injector whose shaper is on (a fresh one included), the chunks shaped
/// afterwards total, in token units, at most the capacity plus `limit_bps`
/// units per nanosecond (`limit_bps / 8` bytes per second) from the state's
/// last refill to the release of the run's last chunk, plus the one
/// millisecond that a wait may round down.
pub proof fn lemma_run_within_rate(v: InjectorView, calls: Seq<ShapedChunk>)
    requires
        v.wf(),
        !v.bandwidth.spec_is_disabled(),
        valid_run(v, calls),
        calls.len() > 0,
    ensures
        run_bytes(calls) * TOKEN_UNITS_PER_BYTE <= bucket_capacity(v.bandwidth) + v.bandwidth.limit_bps * (
        run_end(v, calls) + 1_000_000 - v.last_refill),
{
    lemma_run_within_budget(v, v.last_refill as int, 0, calls);
}

} // verus!
