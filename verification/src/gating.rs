//! Which of the selected statistics are sampled.
//!
//! The statistics that an operator selected are filtered by the capability
//! switches: the selection keeps its order, and a statistic stays if and only
//! if the data source it needs is switched on.

use vstd::prelude::*;
use crate::statistic::SchedulerStatistic;

verus! {

/// The test that a statistic passes if it is sampled under the given
/// switches.
pub open spec fn admission(bpf: bool, perf_events: bool) -> spec_fn(SchedulerStatistic) -> bool {
    |s: SchedulerStatistic| s.admitted(bpf, perf_events)
}

/// The test that a statistic passes if it is not read from a
/// performance-counter table.
pub open spec fn without_perf_table() -> spec_fn(SchedulerStatistic) -> bool {
    |s: SchedulerStatistic| s.spec_perf_table() is None
}

/// The test that a statistic passes if it is a standard one.
pub open spec fn standard_only() -> spec_fn(SchedulerStatistic) -> bool {
    |s: SchedulerStatistic| s.is_standard()
}

/// The statistics of `configured` that are sampled under the given switches,
/// in the order of `configured`.
pub open spec fn effective_statistics(
    configured: Seq<SchedulerStatistic>,
    bpf: bool,
    perf_events: bool,
) -> Seq<SchedulerStatistic> {
    configured.filter(admission(bpf, perf_events))
}

/// Adding one more selected statistic adds it to the sampled ones if it is
/// admitted, and changes nothing otherwise.
pub proof fn lemma_effective_push(
    configured: Seq<SchedulerStatistic>,
    next: SchedulerStatistic,
    bpf: bool,
    perf_events: bool,
)
    ensures
        effective_statistics(configured.push(next), bpf, perf_events) == if next.admitted(
            bpf,
            perf_events,
        ) {
            effective_statistics(configured, bpf, perf_events).push(next)
        } else {
            effective_statistics(configured, bpf, perf_events)
        },
{
    reveal(Seq::filter);
    assert(configured.push(next).drop_last() =~= configured);
}

/// Whatever the switches and the selection: no statistic is sampled whose
/// data source is switched off, every selected standard statistic is sampled,
/// and nothing is sampled that was not selected.
pub proof fn lemma_effective_membership(
    configured: Seq<SchedulerStatistic>,
    bpf: bool,
    perf_events: bool,
)
    ensures
        forall|s: SchedulerStatistic|
            #[trigger] effective_statistics(configured, bpf, perf_events).contains(s) <==> (
            configured.contains(s) && s.admitted(bpf, perf_events)),
        forall|s: SchedulerStatistic|
            #[trigger] effective_statistics(configured, bpf, perf_events).contains(s)
                && s.spec_perf_table() is Some ==> perf_events,
        forall|s: SchedulerStatistic|
            #[trigger] effective_statistics(configured, bpf, perf_events).contains(s)
                && s.spec_bpf_table() is Some ==> bpf,
        forall|s: SchedulerStatistic|
            #[trigger] configured.contains(s) && s.is_standard() ==> effective_statistics(
                configured,
                bpf,
                perf_events,
            ).contains(s),
{
    let test = admission(bpf, perf_events);
    let sampled = effective_statistics(configured, bpf, perf_events);
    assert forall|s: SchedulerStatistic| #[trigger] sampled.contains(s) implies configured.contains(
        s,
    ) && s.admitted(bpf, perf_events) by {
        configured.lemma_filter_contains_rev(test, s);
    }
    assert forall|s: SchedulerStatistic|
        configured.contains(s) && s.admitted(bpf, perf_events) implies #[trigger] sampled.contains(
        s,
    ) by {
        let i = choose|i: int| 0 <= i < configured.len() && configured[i] == s;
        configured.lemma_filter_contains(test, i);
    }
}

/// Whether `places` names, for each sampled statistic, a place in the
/// selection where that statistic stands, with the places going upwards.
pub open spec fn keeps_order(
    places: Seq<int>,
    sampled: Seq<SchedulerStatistic>,
    configured: Seq<SchedulerStatistic>,
) -> bool {
    &&& places.len() == sampled.len()
    &&& forall|k: int|
        0 <= k < places.len() ==> 0 <= #[trigger] places[k] < configured.len()
            && configured[places[k]] == sampled[k]
    &&& forall|j: int, k: int|
        0 <= j < k < places.len() ==> #[trigger] places[j] < #[trigger] places[k]
}

/// The sampled statistics stand in the order of the selection: each comes
/// from a place of its own in the selection, a later one from a later place,
/// and the places they come from are exactly those of the admitted
/// statistics.
pub proof fn lemma_effective_keeps_order(
    configured: Seq<SchedulerStatistic>,
    bpf: bool,
    perf_events: bool,
) -> (places: Seq<int>)
    ensures
        keeps_order(places, effective_statistics(configured, bpf, perf_events), configured),
        forall|i: int|
            0 <= i < configured.len() ==> (places.contains(i) <==> (
            #[trigger] configured[i]).admitted(bpf, perf_events)),
    decreases configured.len(),
{
    reveal(Seq::filter);
    if configured.len() == 0 {
        Seq::empty()
    } else {
        let rest = configured.drop_last();
        let last = configured.last();
        let n = rest.len() as int;
        let before = lemma_effective_keeps_order(rest, bpf, perf_events);
        let places = if last.admitted(bpf, perf_events) {
            before.push(n)
        } else {
            before
        };
        assert forall|i: int| 0 <= i < configured.len() implies (places.contains(i) <==> (
        #[trigger] configured[i]).admitted(bpf, perf_events)) by {
            if i < n {
                assert(configured[i] == rest[i]);
                if before.contains(i) {
                    let k = choose|k: int| 0 <= k < before.len() && before[k] == i;
                    assert(places[k] == i);
                }
            } else if last.admitted(bpf, perf_events) {
                assert(places[before.len() as int] == n);
            }
        }
        places
    }
}

/// Without any capability, exactly the standard statistics of the selection
/// are sampled.
pub proof fn lemma_without_capabilities_only_standard(configured: Seq<SchedulerStatistic>)
    ensures
        effective_statistics(configured, false, false) == configured.filter(standard_only()),
    decreases configured.len(),
{
    reveal(Seq::filter);
    if configured.len() > 0 {
        lemma_without_capabilities_only_standard(configured.drop_last());
    }
}

/// Switching the performance counters on, with nothing else changed, adds
/// the selected statistics that are read from a performance-counter table and
/// does nothing else: with these taken out again, the sampled statistics are
/// what they were before, in the same order.
pub proof fn lemma_enabling_perf_events_only_adds(configured: Seq<SchedulerStatistic>, bpf: bool)
    ensures
        effective_statistics(configured, bpf, true).filter(without_perf_table())
            == effective_statistics(configured, bpf, false),
        forall|s: SchedulerStatistic|
            #[trigger] configured.contains(s) && s.spec_perf_table() is Some ==> {
                &&& effective_statistics(configured, bpf, true).contains(s)
                &&& !effective_statistics(configured, bpf, false).contains(s)
            },
        forall|s: SchedulerStatistic|
            #[trigger] effective_statistics(configured, bpf, false).contains(s)
                ==> effective_statistics(configured, bpf, true).contains(s),
    decreases configured.len(),
{
    lemma_effective_membership(configured, bpf, true);
    lemma_effective_membership(configured, bpf, false);
    lemma_perf_events_filtered_out(configured, bpf);
}

proof fn lemma_perf_events_filtered_out(configured: Seq<SchedulerStatistic>, bpf: bool)
    ensures
        effective_statistics(configured, bpf, true).filter(without_perf_table())
            == effective_statistics(configured, bpf, false),
    decreases configured.len(),
{
    reveal(Seq::filter);
    if configured.len() > 0 {
        let rest = configured.drop_last();
        let last = configured.last();
        lemma_perf_events_filtered_out(rest, bpf);
        let after_rest = effective_statistics(rest, bpf, true);
        if last.admitted(bpf, true) {
            assert(after_rest.push(last).drop_last() =~= after_rest);
        }
    }
}

} // verus!
