use fault_injection::injector::{decide_drop, delay_for_draws, BurstState};
use fault_injection::{BandwidthConfig, FaultInjector, LatencyConfig, PacketLossConfig, PROBABILITY_ONE};

const ONE: i64 = PROBABILITY_ONE as i64;

fn no_latency() -> LatencyConfig {
    LatencyConfig::new(false, 0, None, ONE)
}

fn no_loss() -> PacketLossConfig {
    PacketLossConfig::new(false, 0, None, 0)
}

fn no_bandwidth() -> BandwidthConfig {
    BandwidthConfig::new(false, 0, 8192)
}

fn idle() -> BurstState {
    BurstState { in_burst: false, counter: 0 }
}

#[test]
fn disabled_loss_never_drops() {
    let mut injector = FaultInjector::new(no_latency(), no_loss(), no_bandwidth());
    for _ in 0..1000 {
        assert!(!injector.should_drop_packet());
    }
    assert_eq!(injector.burst_state(), idle());
}

#[test]
fn certain_loss_drops_every_chunk() {
    let loss = PacketLossConfig::new(true, ONE, None, 0);
    let mut injector = FaultInjector::with_seed(no_latency(), loss, no_bandwidth(), 7);
    for _ in 0..1000 {
        assert!(injector.should_drop_packet());
    }
}

#[test]
fn certain_burst_drops_every_chunk() {
    let loss = PacketLossConfig::new(true, 1, Some(3), ONE);
    let mut injector = FaultInjector::with_seed(no_latency(), loss, no_bandwidth(), 11);
    for _ in 0..1000 {
        assert!(injector.should_drop_packet());
    }
}

#[test]
fn burst_with_zero_single_probability_drops_nothing() {
    // A loss probability of 0 disables the whole loss policy, bursts included.
    let loss = PacketLossConfig::new(true, 0, Some(3), ONE);
    let mut injector = FaultInjector::with_seed(no_latency(), loss, no_bandwidth(), 11);
    for _ in 0..100 {
        assert!(!injector.should_drop_packet());
    }
}

#[test]
fn burst_counts_entry_then_resets_after_k() {
    let loss = PacketLossConfig::new(true, 1, Some(3), ONE);
    let mut injector = FaultInjector::with_seed(no_latency(), loss, no_bandwidth(), 3);
    assert!(injector.should_drop_packet());
    assert_eq!(injector.burst_state(), BurstState { in_burst: true, counter: 1 });
    assert!(injector.should_drop_packet());
    assert_eq!(injector.burst_state(), BurstState { in_burst: true, counter: 2 });
    assert!(injector.should_drop_packet());
    assert_eq!(injector.burst_state(), idle());
    assert!(injector.should_drop_packet());
    assert_eq!(injector.burst_state(), BurstState { in_burst: true, counter: 1 });
}

#[test]
fn burst_of_k_drops_exactly_k_then_rolls_again() {
    let loss = PacketLossConfig::new(true, 1, Some(4), 500_000_000);
    let entered = BurstState { in_burst: true, counter: 1 };
    assert_eq!(decide_drop(&loss, idle(), true, false), (true, entered));
    let mut s = entered;
    for _ in 0..3 {
        let (dropped, next) = decide_drop(&loss, s, false, false);
        assert!(dropped);
        s = next;
    }
    assert_eq!(s, idle());
    assert_eq!(decide_drop(&loss, s, false, false), (false, idle()));
    assert_eq!(decide_drop(&loss, s, false, true), (true, idle()));
}

#[test]
fn decision_without_bursts_follows_the_draw() {
    let loss = PacketLossConfig::new(true, 300_000_000, None, ONE);
    assert_eq!(decide_drop(&loss, idle(), true, false), (false, idle()));
    assert_eq!(decide_drop(&loss, idle(), false, true), (true, idle()));
    let off = PacketLossConfig::new(false, 300_000_000, None, ONE);
    assert_eq!(decide_drop(&off, idle(), true, true), (false, idle()));
}

#[test]
fn drop_fraction_tracks_probability() {
    let loss = PacketLossConfig::new(true, 250_000_000, None, 0);
    let mut injector = FaultInjector::with_seed(no_latency(), loss, no_bandwidth(), 42);
    let mut dropped = 0u32;
    for _ in 0..100_000 {
        if injector.should_drop_packet() {
            dropped += 1;
        }
    }
    assert!((23_000..27_000).contains(&dropped), "dropped {}", dropped);
}

#[test]
fn seeded_injectors_repeat() {
    let loss = PacketLossConfig::new(true, 500_000_000, Some(2), 200_000_000);
    let lat = LatencyConfig::new(true, 5, Some((1, 50)), 500_000_000);
    let mut a = FaultInjector::with_seed(lat, loss, no_bandwidth(), 99);
    let mut b = FaultInjector::with_seed(lat, loss, no_bandwidth(), 99);
    for _ in 0..200 {
        assert_eq!(a.should_drop_packet(), b.should_drop_packet());
        assert_eq!(a.next_latency_ms(), b.next_latency_ms());
    }
}

#[test]
fn fixed_latency_is_exact() {
    let lat = LatencyConfig::new(true, 100, None, ONE);
    let mut injector = FaultInjector::new(lat, no_loss(), no_bandwidth());
    for _ in 0..100 {
        assert_eq!(injector.next_latency_ms(), 100);
    }
}

#[test]
fn zero_probability_latency_never_delays() {
    let lat = LatencyConfig::new(true, 100, Some((10, 20)), 0);
    let mut injector = FaultInjector::new(lat, no_loss(), no_bandwidth());
    for _ in 0..100 {
        assert_eq!(injector.next_latency_ms(), 0);
    }
}

#[test]
fn random_latency_stays_in_range() {
    let lat = LatencyConfig::new(true, 100, Some((50, 200)), ONE);
    let mut injector = FaultInjector::with_seed(lat, no_loss(), no_bandwidth(), 5);
    let mut seen_low = false;
    let mut seen_high = false;
    for _ in 0..2000 {
        let d = injector.next_latency_ms();
        assert!((150..=300).contains(&d), "delay {}", d);
        seen_low |= d < 200;
        seen_high |= d > 250;
    }
    assert!(seen_low && seen_high);
}

#[test]
fn degenerate_random_range_adds_its_value() {
    let lat = LatencyConfig::new(true, 7, Some((30, 30)), ONE);
    let mut injector = FaultInjector::new(lat, no_loss(), no_bandwidth());
    assert_eq!(injector.next_latency_ms(), 37);
}

#[test]
fn delay_for_draws_formula() {
    let lat = LatencyConfig::new(true, 100, Some((50, 200)), 800_000_000);
    assert_eq!(delay_for_draws(&lat, true, 75), 175);
    assert_eq!(delay_for_draws(&lat, false, 75), 0);
    let big = LatencyConfig::new(true, u64::MAX - 1, Some((0, 10)), ONE);
    assert_eq!(delay_for_draws(&big, true, 10), u64::MAX);
    let fixed = LatencyConfig::new(true, 40, None, ONE);
    assert_eq!(delay_for_draws(&fixed, true, 999), 40);
    assert_eq!(delay_for_draws(&no_latency(), true, 5), 0);
}

#[test]
fn bandwidth_cap_delays_debt() {
    // 8192 bits/s is 1024 bytes/s; a 1024-byte bucket leaves 3072 bytes of debt.
    let bw = BandwidthConfig::new(true, 8192, 1024);
    let mut injector = FaultInjector::new(no_latency(), no_loss(), bw);
    assert_eq!(injector.throttle_delay_ms(4096, 0), 3000);
}

#[test]
fn bucket_covers_a_burst_then_debt_accumulates() {
    let bw = BandwidthConfig::new(true, 8192, 1024);
    let mut injector = FaultInjector::new(no_latency(), no_loss(), bw);
    assert_eq!(injector.throttle_delay_ms(1024, 0), 0);
    // Empty bucket: 512 bytes take half a second.
    assert_eq!(injector.throttle_delay_ms(512, 0), 500);
    injector.resume_after_throttle(500_000_000);
    // The wait earned nothing: 512 bytes of debt plus 512 new bytes.
    assert_eq!(injector.throttle_delay_ms(512, 500_000_000), 1000);
}

#[test]
fn refill_pays_off_debt_and_saturates_at_capacity() {
    let bw = BandwidthConfig::new(true, 8000, 1000);
    let mut injector = FaultInjector::new(no_latency(), no_loss(), bw);
    assert_eq!(injector.throttle_delay_ms(3000, 0), 2000);
    // Ten seconds later the 2000-byte debt is repaid and the bucket is full.
    assert_eq!(injector.throttle_delay_ms(1000, 10_000_000_000), 0);
    assert_eq!(injector.throttle_delay_ms(1, 10_000_000_000), 1);
}

#[test]
fn disabled_bandwidth_never_waits() {
    let bw = BandwidthConfig::new(false, 8, 0);
    let mut injector = FaultInjector::new(no_latency(), no_loss(), bw);
    assert_eq!(injector.throttle_delay_ms(1 << 20, 0), 0);
    let unlimited = BandwidthConfig::new(true, 0, 0);
    let mut injector = FaultInjector::new(no_latency(), no_loss(), unlimited);
    assert_eq!(injector.throttle_delay_ms(1 << 20, 0), 0);
}

#[test]
fn bytes_through_shaper_stay_within_rate() {
    let bw = BandwidthConfig::new(true, 8192, 1024);
    let mut injector = FaultInjector::new(no_latency(), no_loss(), bw);
    let mut now: u64 = 0;
    let mut sent: u64 = 0;
    for _ in 0..20 {
        let wait = injector.throttle_delay_ms(700, now);
        sent += 700;
        if wait > 0 {
            now += wait * 1_000_000;
            injector.resume_after_throttle(now);
        }
        // capacity + rate * elapsed, with one millisecond of rounding
        let allowed = 1024 + 1024 * (now + 1_000_000) / 1_000_000_000;
        assert!(sent <= allowed, "sent {} allowed {}", sent, allowed);
    }
}

#[test]
fn burst_of_one_drops_exactly_one_chunk() {
    let loss = PacketLossConfig::new(true, 1, Some(1), 500_000_000);
    assert_eq!(decide_drop(&loss, idle(), true, false), (true, idle()));
    assert_eq!(decide_drop(&loss, idle(), false, false), (false, idle()));
    let certain = PacketLossConfig::new(true, 1, Some(1), ONE);
    let mut injector = FaultInjector::with_seed(no_latency(), certain, no_bandwidth(), 8);
    for _ in 0..10 {
        assert!(injector.should_drop_packet());
        assert_eq!(injector.burst_state(), idle());
    }
}

#[test]
fn burst_of_zero_acts_as_one() {
    let loss = PacketLossConfig::new(true, 1, Some(0), 500_000_000);
    assert_eq!(decide_drop(&loss, idle(), true, true), (true, idle()));
    assert_eq!(decide_drop(&loss, idle(), false, false), (false, idle()));
}

#[test]
fn burst_of_two_drops_two_chunks() {
    let loss = PacketLossConfig::new(true, 1, Some(2), 500_000_000);
    let entered = BurstState { in_burst: true, counter: 1 };
    assert_eq!(decide_drop(&loss, idle(), true, false), (true, entered));
    assert_eq!(decide_drop(&loss, entered, false, false), (true, idle()));
    assert_eq!(decide_drop(&loss, idle(), false, false), (false, idle()));
}
