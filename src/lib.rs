//! A TCP fault-injection proxy: the per-connection fault decisions (chunk loss
//! with bursts, latency, token-bucket shaping), the forwarding state machine
//! that drives them, and the parsing of the command-line values they take.

pub mod cli;
pub mod forwarder;
pub mod injector;
pub mod laws;
pub mod policy;

pub use cli::{parse_bandwidth_limit, parse_latency_range};
pub use forwarder::{ChunkAction, Direction, Forwarder};
pub use injector::FaultInjector;
pub use policy::{BandwidthConfig, LatencyConfig, PacketLossConfig, PROBABILITY_ONE};
