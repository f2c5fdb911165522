//! What can be wrong with a configuration payload.

use vstd::prelude::*;

verus! {

/// Why a configuration payload was turned down.
#[derive(Clone, Copy, Debug, PartialEq, Eq, Structural)]
pub enum ConfigError {
    /// The payload holds a field that the configuration does not know.
    UnknownField,
    /// The payload holds two fields of the same name.
    DuplicateField,
    /// A field holds a value of another kind than the field takes.
    InvalidType,
    /// The list of percentiles is empty.
    EmptyPercentiles,
    /// A percentile lies outside the range from 0 to 100.
    InvalidPercentile,
    /// A selected statistic is not in the catalog.
    UnknownStatistic,
}

} // verus!
