//! The decisions of one connection's two-way forwarding loop. The caller owns
//! the sockets: it reads a chunk from either side, asks `on_read` what to do
//! with it, sleeps for the latency, asks `throttle_ms` for the shaping wait,
//! sleeps again (then calls `resume_after_throttle`), writes and flushes the
//! chunk on the other side, and reports it with `on_written`. A read of zero
//! bytes from either side ends the connection.
use crate::injector::{
    drop_step, draw_allowed, extra_allowed, latency_delay, refilled_tokens, shaping_delay_ms,
    BurstState, FaultInjector, InjectorView,
};
use vstd::prelude::*;

verus! {

/// The two directions of a connection.
#[derive(Debug, Clone, Copy, PartialEq, Eq)]
pub enum Direction {
    /// From the client to the destination.
    ClientToServer,
    /// From the destination to the client.
    ServerToClient,
}

/// What to do with the chunk that was just read.
#[derive(Debug, Clone, Copy, PartialEq, Eq)]
pub enum ChunkAction {
    /// The side reached end of stream: stop forwarding in both directions.
    Stop,
    /// Drop the chunk and read again.
    Discard,
    /// Wait `latency_ms` milliseconds, then shape and write the chunk.
    Deliver { latency_ms: u64 },
}

/// The fate of a non-empty chunk for given draw outcomes, and the burst state
/// it leaves behind. A dropped chunk makes no latency draw.
pub open spec fn chunk_outcome(v: InjectorView, enter: bool, hit: bool, gate: bool, extra: u64) -> (ChunkAction, BurstState) {
    let (dropped, next) = drop_step(v.loss, v.burst, enter, hit);
    if dropped {
        (ChunkAction::Discard, next)
    } else {
        (ChunkAction::Deliver { latency_ms: latency_delay(v.latency, gate, extra) }, next)
    }
}

/// Whether the four draw outcomes are ones the policies can produce.
pub open spec fn draws_allowed(v: InjectorView, enter: bool, hit: bool, gate: bool, extra: u64) -> bool {
    &&& draw_allowed(enter, v.loss.burst_probability)
    &&& draw_allowed(hit, v.loss.probability)
    &&& draw_allowed(gate, v.latency.probability)
    &&& extra_allowed(v.latency, extra)
}

/// A counter plus `n`, saturating at `u64::MAX`.
pub open spec fn counter_plus(c: u64, n: int) -> u64 {
    if c + n > u64::MAX {
        u64::MAX
    } else {
        (c + n) as u64
    }
}

/// What the forwarder holds, as plain values.
pub struct ForwarderView {
    pub injector: InjectorView,
    /// Bytes written from the client to the destination.
    pub a_to_b: u64,
    /// Bytes written from the destination to the client.
    pub b_to_a: u64,
}

/// One connection's forwarding state: its fault injector and byte counters.
pub struct Forwarder {
    injector: FaultInjector,
    a_to_b: u64,
    b_to_a: u64,
}

impl View for Forwarder {
    type V = ForwarderView;

    closed spec fn view(&self) -> ForwarderView {
        ForwarderView { injector: self.injector@, a_to_b: self.a_to_b, b_to_a: self.b_to_a }
    }
}

impl Forwarder {
    pub fn new(injector: FaultInjector) -> (r: Self)
        requires
            injector@.wf(),
        ensures
            r@ == (ForwarderView { injector: injector@, a_to_b: 0, b_to_a: 0 }),
    {
        Forwarder { injector, a_to_b: 0, b_to_a: 0 }
    }

    /// Decides what to do with a chunk of `n` bytes that was just read.
    pub fn on_read(&mut self, n: usize) -> (r: ChunkAction)
        requires
            old(self)@.injector.wf(),
        ensures
            final(self)@.injector.wf(),
            n == 0 ==> r == ChunkAction::Stop && final(self)@ == old(self)@,
            n > 0 ==> {
                &&& final(self)@ == (ForwarderView {
                    injector: InjectorView { burst: final(self)@.injector.burst, ..old(self)@.injector },
                    ..old(self)@
                })
                &&& exists|enter: bool, hit: bool, gate: bool, extra: u64|
                    {
                        &&& #[trigger] chunk_outcome(old(self)@.injector, enter, hit, gate, extra) == (r, final(self)@.injector.burst)
                        &&& draws_allowed(old(self)@.injector, enter, hit, gate, extra)
                    }
            },
    {
        if n == 0 {
            return ChunkAction::Stop;
        }
        let ghost v = self@.injector;
        let dropped = self.injector.should_drop_packet();
        let ghost (enter, hit) = choose|enter: bool, hit: bool|
            {
                &&& #[trigger] drop_step(v.loss, v.burst, enter, hit) == (dropped, self@.injector.burst)
                &&& draw_allowed(enter, v.loss.burst_probability)
                &&& draw_allowed(hit, v.loss.probability)
            };
        if dropped {
            proof {
                let gate = v.latency.probability == crate::policy::PROBABILITY_ONE;
                let extra: u64 = match v.latency.random_range {
                    Some((lo, hi)) => lo,
                    None => 0,
                };
                assert(chunk_outcome(v, enter, hit, gate, extra) == (ChunkAction::Discard, self@.injector.burst));
            }
            return ChunkAction::Discard;
        }
        let latency_ms = self.injector.next_latency_ms();
        let ghost (gate, extra) = choose|gate: bool, extra: u64|
            {
                &&& #[trigger] latency_delay(v.latency, gate, extra) == latency_ms
                &&& draw_allowed(gate, v.latency.probability)
                &&& extra_allowed(v.latency, extra)
            };
        assert(chunk_outcome(v, enter, hit, gate, extra) == (ChunkAction::Deliver { latency_ms }, self@.injector.burst));
        ChunkAction::Deliver { latency_ms }
    }

    /// The shaping wait, in milliseconds, before `n` bytes may be written;
    /// `now` is the clock reading after the latency wait.
    pub fn throttle_ms(&mut self, n: usize, now: u64) -> (r: u64)
        requires
            old(self)@.injector.wf(),
        ensures
            final(self)@.injector.wf(),
            final(self)@.a_to_b == old(self)@.a_to_b,
            final(self)@.b_to_a == old(self)@.b_to_a,
            old(self)@.injector.bandwidth.spec_is_disabled() ==> r == 0 && final(self)@ == old(self)@,
            !old(self)@.injector.bandwidth.spec_is_disabled() ==> {
                &&& r == shaping_delay_ms(old(self)@.injector.bandwidth, refilled_tokens(old(self)@.injector, now), n as int)
                &&& final(self)@.injector == (InjectorView {
                    tokens: crate::injector::debited_tokens(refilled_tokens(old(self)@.injector, now), n as int) as i128,
                    last_refill: now,
                    ..old(self)@.injector
                })
            },
    {
        self.injector.throttle_delay_ms(n, now)
    }

    /// Records the clock reading at which a shaping wait ended.
    pub fn resume_after_throttle(&mut self, now: u64)
        requires
            old(self)@.injector.wf(),
        ensures
            final(self)@.injector.wf(),
            final(self)@ == (ForwarderView {
                injector: InjectorView { last_refill: now, ..old(self)@.injector },
                ..old(self)@
            }),
    {
        self.injector.resume_after_throttle(now);
    }

    /// Counts `n` bytes written in direction `dir`.
    pub fn on_written(&mut self, dir: Direction, n: usize)
        ensures
            final(self)@.injector == old(self)@.injector,
            dir == Direction::ClientToServer ==> final(self)@.a_to_b == counter_plus(old(self)@.a_to_b, n as int)
                && final(self)@.b_to_a == old(self)@.b_to_a,
            dir == Direction::ServerToClient ==> final(self)@.b_to_a == counter_plus(old(self)@.b_to_a, n as int)
                && final(self)@.a_to_b == old(self)@.a_to_b,
    {
        match dir {
            Direction::ClientToServer => self.a_to_b = self.a_to_b.saturating_add(n as u64),
            Direction::ServerToClient => self.b_to_a = self.b_to_a.saturating_add(n as u64),
        }
    }

    /// The injector's burst-loss state.
    pub fn burst_state(&self) -> (r: BurstState)
        ensures
            r == self@.injector.burst,
    {
        self.injector.burst_state()
    }

    /// The byte counters: (client to destination, destination to client).
    pub fn totals(&self) -> (r: (u64, u64))
        ensures
            r == (self@.a_to_b, self@.b_to_a),
    {
        (self.a_to_b, self.b_to_a)
    }
}

} // verus!
