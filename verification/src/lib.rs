//! Configuration of the scheduler sampler of a host telemetry collector.
//!
//! The crate decides which scheduler statistics are sampled, given the
//! statistics an operator selected and the capability switches that say
//! which data sources may be used.

pub mod config;
pub mod error;
pub mod gating;
pub mod payload;
pub mod percentile;
pub mod sampler;
pub mod statistic;
pub mod text;

pub use config::{ConfigView, SchedulerConfig};
pub use error::ConfigError;
pub use percentile::Percentile;
pub use sampler::SamplerConfig;
pub use statistic::SchedulerStatistic;
