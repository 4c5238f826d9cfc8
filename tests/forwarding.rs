use fault_injection::{
    BandwidthConfig, ChunkAction, Direction, FaultInjector, Forwarder, LatencyConfig, PacketLossConfig,
    PROBABILITY_ONE,
};

const ONE: i64 = PROBABILITY_ONE as i64;

fn forwarder(latency: LatencyConfig, loss: PacketLossConfig, bandwidth: BandwidthConfig) -> Forwarder {
    Forwarder::new(FaultInjector::new(latency, loss, bandwidth))
}

fn quiet() -> Forwarder {
    forwarder(
        LatencyConfig::new(false, 0, None, ONE),
        PacketLossConfig::new(false, 0, None, 0),
        BandwidthConfig::new(false, 0, 8192),
    )
}

#[test]
fn pass_through_echo_counts_both_directions() {
    let mut f = quiet();
    assert_eq!(f.on_read(5), ChunkAction::Deliver { latency_ms: 0 });
    assert_eq!(f.throttle_ms(5, 0), 0);
    f.on_written(Direction::ClientToServer, 5);
    assert_eq!(f.on_read(5), ChunkAction::Deliver { latency_ms: 0 });
    assert_eq!(f.throttle_ms(5, 0), 0);
    f.on_written(Direction::ServerToClient, 5);
    assert_eq!(f.on_read(0), ChunkAction::Stop);
    assert_eq!(f.totals(), (5, 5));
}

#[test]
fn fixed_latency_delays_each_chunk() {
    let mut f = forwarder(
        LatencyConfig::new(true, 100, None, ONE),
        PacketLossConfig::new(false, 0, None, 0),
        BandwidthConfig::new(false, 0, 8192),
    );
    assert_eq!(f.on_read(10), ChunkAction::Deliver { latency_ms: 100 });
}

#[test]
fn total_loss_forwards_nothing() {
    let mut f = forwarder(
        LatencyConfig::new(false, 0, None, ONE),
        PacketLossConfig::new(true, ONE, None, 0),
        BandwidthConfig::new(false, 0, 8192),
    );
    assert_eq!(f.on_read(1024), ChunkAction::Discard);
    assert_eq!(f.on_read(0), ChunkAction::Stop);
    assert_eq!(f.totals(), (0, 0));
}

#[test]
fn deterministic_burst_discards_every_chunk() {
    let mut f = forwarder(
        LatencyConfig::new(true, 100, None, ONE),
        PacketLossConfig::new(true, 1, Some(3), ONE),
        BandwidthConfig::new(false, 0, 8192),
    );
    for _ in 0..50 {
        assert_eq!(f.on_read(8192), ChunkAction::Discard);
    }
    assert_eq!(f.totals(), (0, 0));
}

#[test]
fn burst_configuration_with_zero_probability_forwards_all() {
    let mut f = forwarder(
        LatencyConfig::new(false, 0, None, ONE),
        PacketLossConfig::new(true, 0, Some(3), ONE),
        BandwidthConfig::new(false, 0, 8192),
    );
    for _ in 0..50 {
        assert_eq!(f.on_read(100), ChunkAction::Deliver { latency_ms: 0 });
    }
}

#[test]
fn bandwidth_cap_one_chunk_waits_three_seconds() {
    let mut f = forwarder(
        LatencyConfig::new(false, 0, None, ONE),
        PacketLossConfig::new(false, 0, None, 0),
        BandwidthConfig::new(true, 8192, 1024),
    );
    assert_eq!(f.on_read(4096), ChunkAction::Deliver { latency_ms: 0 });
    let wait = f.throttle_ms(4096, 0);
    assert!(wait >= 3000);
    assert_eq!(wait, 3000);
    f.resume_after_throttle(3_000_000_000);
    f.on_written(Direction::ClientToServer, 4096);
    assert_eq!(f.totals(), (4096, 0));
}

#[test]
fn empty_read_stops_without_drawing() {
    let mut f = forwarder(
        LatencyConfig::new(false, 0, None, ONE),
        PacketLossConfig::new(true, ONE, None, 0),
        BandwidthConfig::new(false, 0, 8192),
    );
    assert_eq!(f.on_read(0), ChunkAction::Stop);
    assert_eq!(f.on_read(0), ChunkAction::Stop);
}

#[test]
fn counters_saturate() {
    let mut f = quiet();
    f.on_written(Direction::ServerToClient, usize::MAX);
    f.on_written(Direction::ServerToClient, 10);
    assert_eq!(f.totals(), (0, u64::MAX));
}
