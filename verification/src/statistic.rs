//! The catalog of scheduler statistics.
//!
//! Every statistic is one variant of [`SchedulerStatistic`]. A statistic may
//! need a data source beyond the standard kernel counters: a table of
//! hardware performance-counter events, or a table filled by a tracing
//! program attached to the kernel. Which one it needs is fixed here and never
//! changes at run time.

use vstd::prelude::*;
use crate::text::{names_view, text_eq};

verus! {

/// A scheduler metric that can be collected on its own.
#[derive(Clone, Copy, Debug, PartialEq, Eq, Hash, Structural)]
pub enum SchedulerStatistic {
    CpuMigrations,
    RunqueueLatency,
    ContextSwitches,
    ProcessesCreated,
    ProcessesRunning,
    ProcessesBlocked,
}

impl SchedulerStatistic {
    /// All statistics, in the order in which they are listed and reported.
    pub open spec fn catalog() -> Seq<SchedulerStatistic> {
        seq![
            SchedulerStatistic::CpuMigrations,
            SchedulerStatistic::RunqueueLatency,
            SchedulerStatistic::ContextSwitches,
            SchedulerStatistic::ProcessesCreated,
            SchedulerStatistic::ProcessesRunning,
            SchedulerStatistic::ProcessesBlocked,
        ]
    }

    /// The name under which the statistic is selected and reported.
    pub open spec fn spec_name(self) -> Seq<char> {
        match self {
            SchedulerStatistic::CpuMigrations => "scheduler/cpu_migrations"@,
            SchedulerStatistic::RunqueueLatency => "scheduler/runqueue/latency"@,
            SchedulerStatistic::ContextSwitches => "scheduler/context_switches"@,
            SchedulerStatistic::ProcessesCreated => "scheduler/processes/created"@,
            SchedulerStatistic::ProcessesRunning => "scheduler/processes/running"@,
            SchedulerStatistic::ProcessesBlocked => "scheduler/processes/blocked"@,
        }
    }

    /// The statistic that goes by `name`, if there is one.
    pub open spec fn named(name: Seq<char>) -> Option<SchedulerStatistic> {
        if exists|s: SchedulerStatistic| s.spec_name() == name {
            Some(choose|s: SchedulerStatistic| s.spec_name() == name)
        } else {
            None
        }
    }

    /// Whether every name of the list is the name of a statistic.
    pub open spec fn all_named(names: Seq<Seq<char>>) -> bool {
        forall|i: int| 0 <= i < names.len() ==> Self::named(#[trigger] names[i]) is Some
    }

    /// The statistics that go by the names of the list, in its order.
    pub open spec fn named_each(names: Seq<Seq<char>>) -> Seq<SchedulerStatistic>
        recommends
            Self::all_named(names),
    {
        names.map_values(|name: Seq<char>| Self::named(name).unwrap())
    }

    /// The performance-counter table that the statistic is read from, if it
    /// is read from one.
    pub open spec fn spec_perf_table(self) -> Option<Seq<char>> {
        match self {
            SchedulerStatistic::CpuMigrations => Some("cpu_migrations"@),
            _ => None,
        }
    }

    /// The kernel-tracing table that the statistic is read from, if it is
    /// read from one.
    pub open spec fn spec_bpf_table(self) -> Option<Seq<char>> {
        match self {
            SchedulerStatistic::RunqueueLatency => Some("runqueue_latency"@),
            _ => None,
        }
    }

    /// A standard statistic needs neither table.
    pub open spec fn is_standard(self) -> bool {
        self.spec_perf_table() is None && self.spec_bpf_table() is None
    }

    /// Whether the statistic is sampled under the given capability switches:
    /// one read from a performance-counter table goes by `perf_events` alone,
    /// one read from a kernel-tracing table by `bpf` alone, and a standard one
    /// is always sampled.
    pub open spec fn admitted(self, bpf: bool, perf_events: bool) -> bool {
        if self.spec_perf_table() is Some {
            perf_events
        } else if self.spec_bpf_table() is Some {
            bpf
        } else {
            true
        }
    }

    /// The whole catalog, in its order.
    pub fn all() -> (list: Vec<SchedulerStatistic>)
        ensures
            list@ == Self::catalog(),
    {
        let mut list: Vec<SchedulerStatistic> = Vec::new();
        list.push(SchedulerStatistic::CpuMigrations);
        list.push(SchedulerStatistic::RunqueueLatency);
        list.push(SchedulerStatistic::ContextSwitches);
        list.push(SchedulerStatistic::ProcessesCreated);
        list.push(SchedulerStatistic::ProcessesRunning);
        list.push(SchedulerStatistic::ProcessesBlocked);
        list
    }

    /// The name under which the statistic is selected and reported.
    pub fn name(self) -> (name: &'static str)
        ensures
            name@ == self.spec_name(),
    {
        match self {
            SchedulerStatistic::CpuMigrations => "scheduler/cpu_migrations",
            SchedulerStatistic::RunqueueLatency => "scheduler/runqueue/latency",
            SchedulerStatistic::ContextSwitches => "scheduler/context_switches",
            SchedulerStatistic::ProcessesCreated => "scheduler/processes/created",
            SchedulerStatistic::ProcessesRunning => "scheduler/processes/running",
            SchedulerStatistic::ProcessesBlocked => "scheduler/processes/blocked",
        }
    }

    /// The statistic that goes by `name`, or `None` where no statistic does.
    pub fn from_name(name: &str) -> (found: Option<SchedulerStatistic>)
        ensures
            found == Self::named(name@),
    {
        let list = Self::all();
        let mut i: usize = 0;
        while i < list.len()
            invariant
                i <= list@.len(),
                list@ == Self::catalog(),
                forall|j: int| 0 <= j < i ==> list@[j].spec_name() != name@,
            decreases list@.len() - i,
        {
            let candidate = list[i];
            if text_eq(candidate.name(), name) {
                proof {
                    lemma_names_are_distinct();
                }
                return Some(candidate);
            }
            i += 1;
        }
        proof {
            lemma_catalog_is_complete();
        }
        None
    }

    /// The statistics that go by the names of the list, in its order, or
    /// `None` where a name is not that of a statistic.
    pub fn from_names(names: &Vec<String>) -> (found: Option<Vec<SchedulerStatistic>>)
        ensures
            found is Some == Self::all_named(names_view(names@)),
            found matches Some(list) ==> list@ == Self::named_each(names_view(names@)),
    {
        let ghost texts = names_view(names@);
        let mut list: Vec<SchedulerStatistic> = Vec::new();
        let mut i: usize = 0;
        while i < names.len()
            invariant
                i <= names@.len(),
                texts == names_view(names@),
                list@ == Self::named_each(texts.take(i as int)),
                Self::all_named(texts.take(i as int)),
            decreases names@.len() - i,
        {
            match Self::from_name(names[i].as_str()) {
                Some(statistic) => {
                    list.push(statistic);
                },
                None => {
                    assert(Self::named(texts[i as int]) is None);
                    return None;
                },
            }
            i += 1;
        }
        assert(texts.take(i as int) =~= texts);
        Some(list)
    }

    /// The performance-counter table that the statistic is read from, if it
    /// is read from one.
    pub fn perf_table(self) -> (table: Option<&'static str>)
        ensures
            table is Some == self.spec_perf_table() is Some,
            table matches Some(t) ==> self.spec_perf_table() == Some(t@),
    {
        match self {
            SchedulerStatistic::CpuMigrations => Some("cpu_migrations"),
            _ => None,
        }
    }

    /// The kernel-tracing table that the statistic is read from, if it is
    /// read from one.
    pub fn bpf_table(self) -> (table: Option<&'static str>)
        ensures
            table is Some == self.spec_bpf_table() is Some,
            table matches Some(t) ==> self.spec_bpf_table() == Some(t@),
    {
        match self {
            SchedulerStatistic::RunqueueLatency => Some("runqueue_latency"),
            _ => None,
        }
    }

    /// Whether the statistic is sampled under the given capability switches.
    pub fn is_admitted(self, bpf: bool, perf_events: bool) -> (sampled: bool)
        ensures
            sampled == self.admitted(bpf, perf_events),
    {
        if self.perf_table().is_some() {
            perf_events
        } else if self.bpf_table().is_some() {
            bpf
        } else {
            true
        }
    }
}

/// The catalog lists every statistic.
pub proof fn lemma_catalog_is_complete()
    ensures
        forall|s: SchedulerStatistic| SchedulerStatistic::catalog().contains(s),
{
    let c = SchedulerStatistic::catalog();
    assert forall|s: SchedulerStatistic| c.contains(s) by {
        match s {
            SchedulerStatistic::CpuMigrations => assert(c[0] == s),
            SchedulerStatistic::RunqueueLatency => assert(c[1] == s),
            SchedulerStatistic::ContextSwitches => assert(c[2] == s),
            SchedulerStatistic::ProcessesCreated => assert(c[3] == s),
            SchedulerStatistic::ProcessesRunning => assert(c[4] == s),
            SchedulerStatistic::ProcessesBlocked => assert(c[5] == s),
        }
    }
}

/// The catalog lists no statistic twice.
pub proof fn lemma_catalog_has_no_duplicates()
    ensures
        SchedulerStatistic::catalog().no_duplicates(),
{
}

/// No statistic needs both a performance-counter table and a kernel-tracing
/// table.
pub proof fn lemma_single_backend(s: SchedulerStatistic)
    ensures
        !(s.spec_perf_table() is Some && s.spec_bpf_table() is Some),
{
}

/// No two statistics share a name.
pub proof fn lemma_names_are_distinct()
    ensures
        forall|a: SchedulerStatistic, b: SchedulerStatistic|
            a.spec_name() == b.spec_name() ==> a == b,
        forall|s: SchedulerStatistic| SchedulerStatistic::named(s.spec_name()) == Some(s),
{
    reveal_strlit("scheduler/cpu_migrations");
    reveal_strlit("scheduler/runqueue/latency");
    reveal_strlit("scheduler/context_switches");
    reveal_strlit("scheduler/processes/created");
    reveal_strlit("scheduler/processes/running");
    reveal_strlit("scheduler/processes/blocked");
    assert forall|a: SchedulerStatistic, b: SchedulerStatistic|
        a.spec_name() == b.spec_name() implies a == b by {
        if a != b {
            assert(a.spec_name().len() != b.spec_name().len() || a.spec_name()[10]
                != b.spec_name()[10] || a.spec_name()[20] != b.spec_name()[20]);
        }
    }
}

} // verus!
