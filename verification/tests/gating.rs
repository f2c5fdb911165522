use scheduler_config::payload::{Field, FieldValue};
use scheduler_config::{SamplerConfig, SchedulerConfig, SchedulerStatistic};

fn field(name: &str, value: FieldValue) -> Field {
    Field { name: name.to_string(), value }
}

fn select(statistics: &[SchedulerStatistic], bpf: bool, perf_events: bool) -> SchedulerConfig {
    let names = statistics.iter().map(|s| s.name().to_string()).collect();
    let raw = vec![
        field("statistics", FieldValue::Names(names)),
        field("bpf", FieldValue::Flag(bpf)),
        field("perf_events", FieldValue::Flag(perf_events)),
    ];
    SchedulerConfig::from_external_source(&raw).unwrap()
}

fn standard() -> Vec<SchedulerStatistic> {
    vec![
        SchedulerStatistic::ContextSwitches,
        SchedulerStatistic::ProcessesCreated,
        SchedulerStatistic::ProcessesRunning,
        SchedulerStatistic::ProcessesBlocked,
    ]
}

#[test]
fn default_selects_the_catalog_and_samples_the_standard_statistics() {
    let config = SchedulerConfig::default();
    assert!(!config.bpf());
    assert!(!config.enabled());
    assert!(!config.perf_events());
    assert_eq!(config.interval(), None);
    assert_eq!(config.statistics(), standard());
}

#[test]
fn default_with_every_capability_samples_the_whole_catalog() {
    let mut config = SchedulerConfig::default();
    config.set_bpf(true);
    config.set_perf_events(true);
    assert_eq!(config.statistics(), SchedulerStatistic::all());
}

#[test]
fn default_with_bpf_adds_the_runqueue_latency() {
    let mut config = SchedulerConfig::default();
    config.set_bpf(true);
    assert_eq!(
        config.statistics(),
        vec![
            SchedulerStatistic::RunqueueLatency,
            SchedulerStatistic::ContextSwitches,
            SchedulerStatistic::ProcessesCreated,
            SchedulerStatistic::ProcessesRunning,
            SchedulerStatistic::ProcessesBlocked,
        ]
    );
}

#[test]
fn default_with_perf_events_adds_the_cpu_migrations() {
    let mut config = SchedulerConfig::default();
    config.set_perf_events(true);
    assert_eq!(
        config.statistics(),
        vec![
            SchedulerStatistic::CpuMigrations,
            SchedulerStatistic::ContextSwitches,
            SchedulerStatistic::ProcessesCreated,
            SchedulerStatistic::ProcessesRunning,
            SchedulerStatistic::ProcessesBlocked,
        ]
    );
}

#[test]
fn the_selection_keeps_its_order() {
    let configured = [
        SchedulerStatistic::CpuMigrations,
        SchedulerStatistic::ContextSwitches,
        SchedulerStatistic::RunqueueLatency,
    ];
    let config = select(&configured, true, false);
    assert_eq!(
        config.statistics(),
        vec![SchedulerStatistic::ContextSwitches, SchedulerStatistic::RunqueueLatency]
    );
}

#[test]
fn a_selection_out_of_catalog_order_stays_so() {
    let configured = [
        SchedulerStatistic::ProcessesBlocked,
        SchedulerStatistic::RunqueueLatency,
        SchedulerStatistic::ProcessesCreated,
        SchedulerStatistic::CpuMigrations,
    ];
    assert_eq!(select(&configured, true, true).statistics(), configured.to_vec());
    assert_eq!(
        select(&configured, false, true).statistics(),
        vec![
            SchedulerStatistic::ProcessesBlocked,
            SchedulerStatistic::ProcessesCreated,
            SchedulerStatistic::CpuMigrations,
        ]
    );
}

#[test]
fn a_statistic_selected_twice_is_sampled_twice() {
    let configured = [
        SchedulerStatistic::ContextSwitches,
        SchedulerStatistic::CpuMigrations,
        SchedulerStatistic::ContextSwitches,
        SchedulerStatistic::CpuMigrations,
    ];
    assert_eq!(
        select(&configured, false, false).statistics(),
        vec![SchedulerStatistic::ContextSwitches, SchedulerStatistic::ContextSwitches]
    );
    assert_eq!(select(&configured, false, true).statistics(), configured.to_vec());
}

#[test]
fn only_gated_statistics_without_capabilities_sample_nothing() {
    let configured = [SchedulerStatistic::CpuMigrations, SchedulerStatistic::RunqueueLatency];
    assert_eq!(select(&configured, false, false).statistics(), Vec::new());
}

#[test]
fn an_empty_selection_samples_nothing() {
    for bpf in [false, true] {
        for perf_events in [false, true] {
            assert_eq!(select(&[], bpf, perf_events).statistics(), Vec::new());
        }
    }
}

#[test]
fn no_switch_combination_samples_a_statistic_whose_source_is_off() {
    for bpf in [false, true] {
        for perf_events in [false, true] {
            let config = select(&SchedulerStatistic::all(), bpf, perf_events);
            let sampled = config.statistics();
            for statistic in &sampled {
                if statistic.perf_table().is_some() {
                    assert!(perf_events);
                }
                if statistic.bpf_table().is_some() {
                    assert!(bpf);
                }
            }
            for statistic in standard() {
                assert!(sampled.contains(&statistic));
            }
            assert_eq!(sampled.contains(&SchedulerStatistic::CpuMigrations), perf_events);
            assert_eq!(sampled.contains(&SchedulerStatistic::RunqueueLatency), bpf);
        }
    }
}

#[test]
fn bpf_does_not_stand_in_for_perf_events() {
    let config = select(&[SchedulerStatistic::CpuMigrations], true, false);
    assert_eq!(config.statistics(), Vec::new());
}

#[test]
fn perf_events_does_not_stand_in_for_bpf() {
    let config = select(&[SchedulerStatistic::RunqueueLatency], false, true);
    assert_eq!(config.statistics(), Vec::new());
}

#[test]
fn the_enabled_switch_gates_no_statistic() {
    let mut config = SchedulerConfig::default();
    let before = config.statistics();
    config.set_enabled(true);
    assert!(config.enabled());
    assert_eq!(config.statistics(), before);
    config.set_enabled(false);
    assert!(!config.enabled());
    assert_eq!(config.statistics(), before);
}

#[test]
fn two_calls_without_a_change_give_the_same() {
    for bpf in [false, true] {
        for perf_events in [false, true] {
            let config = select(&SchedulerStatistic::all(), bpf, perf_events);
            assert_eq!(config.statistics(), config.statistics());
        }
    }
}

#[test]
fn switching_perf_events_on_only_adds() {
    let configured = [
        SchedulerStatistic::ProcessesRunning,
        SchedulerStatistic::CpuMigrations,
        SchedulerStatistic::RunqueueLatency,
        SchedulerStatistic::ContextSwitches,
    ];
    for bpf in [false, true] {
        let mut config = select(&configured, bpf, false);
        let before = config.statistics();
        config.set_perf_events(true);
        let after = config.statistics();
        assert!(!before.contains(&SchedulerStatistic::CpuMigrations));
        assert!(after.contains(&SchedulerStatistic::CpuMigrations));
        assert_eq!(after.len(), before.len() + 1);
        let kept: Vec<SchedulerStatistic> =
            after.iter().copied().filter(|s| s.perf_table().is_none()).collect();
        assert_eq!(kept, before);
    }
}

#[test]
fn switching_perf_events_on_gives_the_exact_list() {
    let configured = [
        SchedulerStatistic::ProcessesRunning,
        SchedulerStatistic::CpuMigrations,
        SchedulerStatistic::ContextSwitches,
    ];
    let mut config = select(&configured, false, false);
    assert_eq!(
        config.statistics(),
        vec![SchedulerStatistic::ProcessesRunning, SchedulerStatistic::ContextSwitches]
    );
    config.set_perf_events(true);
    assert_eq!(config.statistics(), configured.to_vec());
    config.set_perf_events(false);
    assert_eq!(
        config.statistics(),
        vec![SchedulerStatistic::ProcessesRunning, SchedulerStatistic::ContextSwitches]
    );
}

#[test]
fn a_switch_changes_nothing_but_itself() {
    let mut config = SchedulerConfig::default();
    config.set_bpf(true);
    assert!(config.bpf());
    assert!(!config.enabled());
    assert!(!config.perf_events());
    config.set_perf_events(true);
    assert!(config.bpf());
    assert!(!config.enabled());
    assert!(config.perf_events());
    config.set_bpf(false);
    assert!(!config.bpf());
    assert!(config.perf_events());
    assert_eq!(config.interval(), None);
    assert_eq!(config.percentiles().len(), 5);
}

#[test]
fn the_selection_is_kept_whatever_the_switches() {
    let configured = [
        SchedulerStatistic::RunqueueLatency,
        SchedulerStatistic::ProcessesCreated,
        SchedulerStatistic::CpuMigrations,
    ];
    let mut config = select(&configured, false, false);
    assert_eq!(config.configured_statistics(), &configured);
    assert_eq!(config.statistics(), vec![SchedulerStatistic::ProcessesCreated]);
    config.set_bpf(true);
    config.set_perf_events(true);
    assert_eq!(config.configured_statistics(), &configured);
    assert_eq!(
        SchedulerConfig::default().configured_statistics(),
        SchedulerStatistic::all().as_slice()
    );
}
