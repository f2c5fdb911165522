//! What a sampler's configuration must answer.

use vstd::prelude::*;
use crate::percentile::Percentile;

verus! {

/// The questions that the sampling loop asks of the configuration of any
/// sampler.
pub trait SamplerConfig {
    /// The statistics that the sampler knows.
    type Statistic;

    /// Whether tracing programs may be attached to the kernel.
    fn bpf(&self) -> bool;

    /// Whether the sampler is switched on at all.
    fn enabled(&self) -> bool;

    /// The time between two samples, or `None` for the collector's own
    /// default.
    fn interval(&self) -> Option<usize>;

    /// The percentiles reported of a distribution.
    fn percentiles(&self) -> &[Percentile];

    /// Whether hardware performance counters may be read.
    fn perf_events(&self) -> bool;

    /// The statistics to sample now.
    fn statistics(&self) -> Vec<Self::Statistic>;
}

} // verus!
