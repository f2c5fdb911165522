//! The configuration of the scheduler sampler.

use vstd::prelude::*;
use crate::error::ConfigError;
use crate::gating::{
    effective_statistics, lemma_effective_membership, lemma_effective_push,
    lemma_enabling_perf_events_only_adds, lemma_without_capabilities_only_standard,
    standard_only, without_perf_table,
};
use crate::payload::{
    contains_duplicate_field, contains_mistyped_field, contains_unknown_field, find_value,
    flag_of, has_duplicate_field, has_mistyped_field, has_unknown_field, interval_of,
    payload_view, percentiles_of, read_flag, read_interval, selection_of, Field, FieldKey,
    FieldValue, FieldView,
};
use crate::percentile::{
    validated_percentiles, default_percentiles, lemma_default_percentiles_are_valid,
    percentiles_fault, percentiles_valid, spec_default_percentiles, Percentile,
};
use crate::sampler::SamplerConfig;
use crate::statistic::SchedulerStatistic;

verus! {

/// What a [`SchedulerConfig`] holds.
pub struct ConfigView {
    pub bpf: bool,
    pub enabled: bool,
    pub interval: Option<usize>,
    pub percentiles: Seq<Percentile>,
    pub perf_events: bool,
    pub statistics: Seq<SchedulerStatistic>,
}

impl ConfigView {
    /// The configuration that nobody has touched: every switch off, no
    /// interval of its own, the default percentiles, and the whole catalog
    /// selected.
    pub open spec fn initial() -> ConfigView {
        ConfigView {
            bpf: false,
            enabled: false,
            interval: None,
            percentiles: spec_default_percentiles(),
            perf_events: false,
            statistics: SchedulerStatistic::catalog(),
        }
    }

    /// The statistics that are sampled under this configuration.
    pub open spec fn effective(self) -> Seq<SchedulerStatistic> {
        effective_statistics(self.statistics, self.bpf, self.perf_events)
    }
}

/// The percentiles of the configuration that a payload describes: its own,
/// or the default ones where it sets none.
pub open spec fn resolved_percentiles(raw: Seq<FieldView>) -> Seq<Percentile> {
    match percentiles_of(raw) {
        Some(list) => list,
        None => spec_default_percentiles(),
    }
}

/// Whether every statistic that the payload selects is in the catalog.
pub open spec fn selection_known(raw: Seq<FieldView>) -> bool {
    selection_of(raw) matches Some(names) ==> SchedulerStatistic::all_named(names)
}

/// The statistics of the configuration that a payload describes: those it
/// selects, in its order, or the whole catalog where it selects none.
pub open spec fn resolved_statistics(raw: Seq<FieldView>) -> Seq<SchedulerStatistic> {
    match selection_of(raw) {
        Some(names) => SchedulerStatistic::named_each(names),
        None => SchedulerStatistic::catalog(),
    }
}

/// The configuration that a payload describes, or what is wrong with the
/// payload. A field that the payload does not set keeps its default. Of
/// several faults the first of this list is reported: an unknown field, a
/// field set twice, a value of the wrong kind, an empty list of percentiles,
/// a percentile out of range, a statistic that is not in the catalog.
pub open spec fn resolve(raw: Seq<FieldView>) -> Result<ConfigView, ConfigError> {
    if has_unknown_field(raw) {
        Err(ConfigError::UnknownField)
    } else if has_duplicate_field(raw) {
        Err(ConfigError::DuplicateField)
    } else if has_mistyped_field(raw) {
        Err(ConfigError::InvalidType)
    } else if percentiles_fault(resolved_percentiles(raw)) is Some {
        Err(percentiles_fault(resolved_percentiles(raw)).unwrap())
    } else if !selection_known(raw) {
        Err(ConfigError::UnknownStatistic)
    } else {
        Ok(
            ConfigView {
                bpf: flag_of(raw, FieldKey::Bpf),
                enabled: flag_of(raw, FieldKey::Enabled),
                interval: interval_of(raw),
                percentiles: resolved_percentiles(raw),
                perf_events: flag_of(raw, FieldKey::PerfEvents),
                statistics: resolved_statistics(raw),
            },
        )
    }
}

/// The configuration of the scheduler sampler: three capability switches,
/// the sampling interval, the percentiles to report and the statistics that
/// the operator selected.
#[derive(Debug)]
pub struct SchedulerConfig {
    bpf: bool,
    enabled: bool,
    interval: Option<usize>,
    percentiles: Vec<Percentile>,
    perf_events: bool,
    statistics: Vec<SchedulerStatistic>,
}

impl View for SchedulerConfig {
    type V = ConfigView;

    closed spec fn view(&self) -> ConfigView {
        ConfigView {
            bpf: self.bpf,
            enabled: self.enabled,
            interval: self.interval,
            percentiles: self.percentiles@,
            perf_events: self.perf_events,
            statistics: self.statistics@,
        }
    }
}

/// The statistics that are selected where a configuration names none: the
/// whole catalog.
fn default_statistics() -> (list: Vec<SchedulerStatistic>)
    ensures
        list@ == SchedulerStatistic::catalog(),
{
    SchedulerStatistic::all()
}

impl Default for SchedulerConfig {
    /// The configuration that nobody has touched.
    fn default() -> (config: Self)
        ensures
            config@ == ConfigView::initial(),
    {
        Self {
            bpf: false,
            enabled: false,
            interval: None,
            percentiles: default_percentiles(),
            perf_events: false,
            statistics: default_statistics(),
        }
    }
}

impl SchedulerConfig {
    /// A configuration always names at least one percentile, and each lies
    /// between 0 and 100.
    #[verifier::type_invariant]
    spec fn well_formed(&self) -> bool {
        percentiles_valid(self.percentiles@)
    }

    /// Reads a configuration from a payload. Every field is optional, and one
    /// that the payload does not set keeps its default; a payload with an
    /// unknown field is turned down.
    pub fn from_external_source(raw: &Vec<Field>) -> (resolved: Result<
        SchedulerConfig,
        ConfigError,
    >)
        ensures
            match resolved {
                Ok(config) => resolve(payload_view(raw@)) == Ok::<ConfigView, ConfigError>(
                    config@,
                ),
                Err(error) => resolve(payload_view(raw@)) == Err::<ConfigView, ConfigError>(
                    error,
                ),
            },
            has_unknown_field(payload_view(raw@)) ==> resolved matches Err(
                ConfigError::UnknownField,
            ),
    {
        if contains_unknown_field(raw) {
            return Err(ConfigError::UnknownField);
        }
        if contains_duplicate_field(raw) {
            return Err(ConfigError::DuplicateField);
        }
        if contains_mistyped_field(raw) {
            return Err(ConfigError::InvalidType);
        }
        let percentiles = match find_value(raw, FieldKey::Percentiles) {
            Some(FieldValue::Percentiles(list)) => match validated_percentiles(list) {
                Ok(copy) => copy,
                Err(error) => {
                    return Err(error);
                },
            },
            Some(_) => {
                return Err(ConfigError::EmptyPercentiles);
            },
            None => default_percentiles(),
        };
        let statistics = match find_value(raw, FieldKey::Statistics) {
            Some(FieldValue::Names(names)) => match SchedulerStatistic::from_names(names) {
                Some(list) => list,
                None => {
                    return Err(ConfigError::UnknownStatistic);
                },
            },
            Some(_) => Vec::new(),
            None => default_statistics(),
        };
        assert(statistics@ =~= resolved_statistics(payload_view(raw@)));
        Ok(
            SchedulerConfig {
                bpf: read_flag(raw, FieldKey::Bpf),
                enabled: read_flag(raw, FieldKey::Enabled),
                interval: read_interval(raw),
                percentiles,
                perf_events: read_flag(raw, FieldKey::PerfEvents),
                statistics,
            },
        )
    }

    /// The statistics that the operator selected, whether or not they are
    /// sampled now.
    pub fn configured_statistics(&self) -> (selection: &[SchedulerStatistic])
        ensures
            selection@ == self@.statistics,
    {
        self.statistics.as_slice()
    }

    /// Allows or forbids attaching tracing programs to the kernel.
    pub fn set_bpf(&mut self, allowed: bool)
        ensures
            final(self)@ == (ConfigView { bpf: allowed, ..old(self)@ }),
    {
        proof {
            use_type_invariant(&*self);
        }
        self.bpf = allowed;
    }

    /// Switches the sampler on or off.
    pub fn set_enabled(&mut self, on: bool)
        ensures
            final(self)@ == (ConfigView { enabled: on, ..old(self)@ }),
    {
        proof {
            use_type_invariant(&*self);
        }
        self.enabled = on;
    }

    /// Allows or forbids reading hardware performance counters.
    pub fn set_perf_events(&mut self, allowed: bool)
        ensures
            final(self)@ == (ConfigView { perf_events: allowed, ..old(self)@ }),
    {
        proof {
            use_type_invariant(&*self);
        }
        self.perf_events = allowed;
    }
}

impl SamplerConfig for SchedulerConfig {
    type Statistic = SchedulerStatistic;

    fn bpf(&self) -> (allowed: bool)
        ensures
            allowed == self@.bpf,
    {
        self.bpf
    }

    fn enabled(&self) -> (on: bool)
        ensures
            on == self@.enabled,
    {
        self.enabled
    }

    fn interval(&self) -> (interval: Option<usize>)
        ensures
            interval == self@.interval,
    {
        self.interval
    }

    fn percentiles(&self) -> (list: &[Percentile])
        ensures
            list@ == self@.percentiles,
            percentiles_valid(list@),
    {
        proof {
            use_type_invariant(self);
        }
        self.percentiles.as_slice()
    }

    fn perf_events(&self) -> (allowed: bool)
        ensures
            allowed == self@.perf_events,
    {
        self.perf_events
    }

    /// The selected statistics whose data source is switched on, in the
    /// order in which they were selected.
    fn statistics(&self) -> (enabled: Vec<SchedulerStatistic>)
        ensures
            enabled@ == self@.effective(),
            forall|s: SchedulerStatistic|
                #[trigger] enabled@.contains(s) ==> self@.statistics.contains(s),
            forall|s: SchedulerStatistic|
                #[trigger] enabled@.contains(s) && s.spec_perf_table() is Some
                    ==> self@.perf_events,
            forall|s: SchedulerStatistic|
                #[trigger] enabled@.contains(s) && s.spec_bpf_table() is Some ==> self@.bpf,
            forall|s: SchedulerStatistic|
                #[trigger] self@.statistics.contains(s) && s.is_standard() ==> enabled@.contains(
                    s,
                ),
    {
        let mut enabled: Vec<SchedulerStatistic> = Vec::new();
        let mut i: usize = 0;
        proof {
            reveal(Seq::filter);
        }
        while i < self.statistics.len()
            invariant
                i <= self.statistics@.len(),
                enabled@ == effective_statistics(
                    self.statistics@.take(i as int),
                    self@.bpf,
                    self@.perf_events,
                ),
            decreases self.statistics@.len() - i,
        {
            let statistic = self.statistics[i];
            proof {
                lemma_effective_push(
                    self.statistics@.take(i as int),
                    statistic,
                    self@.bpf,
                    self@.perf_events,
                );
                assert(self.statistics@.take(i as int).push(statistic) =~= self.statistics@.take(
                    i + 1,
                ));
            }
            if statistic.perf_table().is_some() {
                if self.perf_events() {
                    enabled.push(statistic);
                }
            } else if statistic.bpf_table().is_some() {
                if self.bpf() {
                    enabled.push(statistic);
                }
            } else {
                enabled.push(statistic);
            }
            i += 1;
        }
        proof {
            assert(self.statistics@.take(i as int) =~= self.statistics@);
            lemma_effective_membership(self@.statistics, self@.bpf, self@.perf_events);
        }
        enabled
    }
}

/// The sampled statistics depend on the selection and on the two switches
/// `bpf` and `perf_events`, and on nothing else: two configurations that
/// agree on these sample the same statistics in the same order.
pub proof fn lemma_effective_is_determined(a: ConfigView, b: ConfigView)
    requires
        a.bpf == b.bpf,
        a.perf_events == b.perf_events,
        a.statistics == b.statistics,
    ensures
        a.effective() == b.effective(),
{
}

/// The untouched configuration selects the whole catalog and samples its
/// standard statistics, and only them.
pub proof fn lemma_initial_samples_standard()
    ensures
        ConfigView::initial().statistics == SchedulerStatistic::catalog(),
        ConfigView::initial().effective() == SchedulerStatistic::catalog().filter(
            standard_only(),
        ),
        ConfigView::initial().effective() == seq![
            SchedulerStatistic::ContextSwitches,
            SchedulerStatistic::ProcessesCreated,
            SchedulerStatistic::ProcessesRunning,
            SchedulerStatistic::ProcessesBlocked,
        ],
{
    let catalog = SchedulerStatistic::catalog();
    lemma_without_capabilities_only_standard(catalog);
    reveal_with_fuel(Seq::filter, 7);
    assert(ConfigView::initial().effective() =~= seq![
        SchedulerStatistic::ContextSwitches,
        SchedulerStatistic::ProcessesCreated,
        SchedulerStatistic::ProcessesRunning,
        SchedulerStatistic::ProcessesBlocked,
    ]);
}

/// Switching the performance counters on, with nothing else changed, adds
/// the selected statistics that are read from a performance-counter table,
/// and neither removes nor moves a statistic that was sampled before.
pub proof fn lemma_switching_perf_events_on(before: ConfigView, after: ConfigView)
    requires
        !before.perf_events,
        after == (ConfigView { perf_events: true, ..before }),
    ensures
        after.effective().filter(without_perf_table()) == before.effective(),
        forall|s: SchedulerStatistic|
            #[trigger] before.statistics.contains(s) && s.spec_perf_table() is Some ==> {
                &&& after.effective().contains(s)
                &&& !before.effective().contains(s)
            },
        forall|s: SchedulerStatistic|
            #[trigger] before.effective().contains(s) ==> after.effective().contains(s),
{
    lemma_enabling_perf_events_only_adds(before.statistics, before.bpf);
}

/// A payload without fields describes the untouched configuration.
pub proof fn lemma_empty_payload_is_initial()
    ensures
        resolve(Seq::empty()) == Ok::<ConfigView, ConfigError>(ConfigView::initial()),
{
    lemma_default_percentiles_are_valid();
}

/// The configuration that a payload describes names at least one
/// percentile, and each of its percentiles lies between 0 and 100.
pub proof fn lemma_resolved_percentiles_are_valid(raw: Seq<FieldView>)
    ensures
        resolve(raw) matches Ok(view) ==> percentiles_valid(view.percentiles),
{
}

} // verus!
