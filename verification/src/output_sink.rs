//! Sinks for outputs: one that drops them, and one that keeps statistics.

use crate::output::Output;
use crate::output::OutputCore;
use vstd::prelude::*;
use vstd::relations::sorted_by;
use vstd::relations::total_ordering;
use vstd::seq_lib::lemma_sorted_unique;

verus! {

/// A sink for outputs.
pub trait OutputSink<O> {
    /// Consumes one output.
    fn send(&mut self, output: Output<O>)
        requires
            output.core.latency_fits(),
    ;
}

/// Do nothing with the outputs.
pub struct NoOpOutputSink;

impl<O> OutputSink<O> for NoOpOutputSink {
    fn send(&mut self, _output: Output<O>) {
    }
}

/// The figures that a report of a run is made of.
#[derive(Debug, Clone, Copy, PartialEq, Eq, Structural)]
pub struct Summary {
    /// Total requests.
    pub total: u64,
    /// Successful requests.
    pub success_count: u64,
    /// Erroneous requests.
    pub error_count: u64,
    /// Time from the earliest start to the latest end, in nanoseconds.
    pub duration_ns: i128,
    /// The smallest latency, in nanoseconds.
    pub latency_p0_ns: i64,
    /// The median latency, in nanoseconds.
    pub latency_p50_ns: i64,
    /// The 90th percentile of the latencies, in nanoseconds.
    pub latency_p90_ns: i64,
    /// The 99th percentile of the latencies, in nanoseconds.
    pub latency_p99_ns: i64,
    /// The largest latency, in nanoseconds.
    pub latency_p100_ns: i64,
}

/// The order in which latencies are ranked.
pub open spec fn at_most() -> spec_fn(i64, i64) -> bool {
    |a: i64, b: i64| a <= b
}

/// The latencies in ascending order.
pub open spec fn ascending(latencies: Seq<i64>) -> Seq<i64> {
    latencies.sort_by(at_most())
}

/// The zero-based nearest rank of the `percent`-th percentile among `count`
/// values: the whole part of `(count - 1) * percent / 100`.
pub open spec fn percentile_index(count: nat, percent: nat) -> int {
    ((count - 1) * percent) / 100
}

/// What a statistics sink has seen so far.
pub struct Stats {
    /// How many outputs carried an error.
    pub error_count: nat,
    /// How many outputs carried none.
    pub success_count: nat,
    /// The latency of every output, in the order of arrival.
    pub latencies: Seq<i64>,
    /// The earliest start among the outputs seen; 0 before the first.
    pub start_ns: i64,
    /// The latest end among the outputs seen; 0 before the first.
    pub end_ns: i64,
}

impl Stats {
    /// The statistics of a sink that has seen nothing.
    pub open spec fn empty() -> Stats {
        Stats { error_count: 0, success_count: 0, latencies: Seq::empty(), start_ns: 0, end_ns: 0 }
    }

    /// The statistics after one more output.
    pub open spec fn record(self, core: OutputCore) -> Stats {
        let first = self.latencies.len() == 0;
        Stats {
            error_count: if core.failed() { self.error_count + 1 } else { self.error_count },
            success_count: if core.failed() { self.success_count } else { self.success_count + 1 },
            latencies: self.latencies.push(core.latency() as i64),
            start_ns: if first || core.start_ns < self.start_ns { core.start_ns } else { self.start_ns },
            end_ns: if first || core.end_ns > self.end_ns { core.end_ns } else { self.end_ns },
        }
    }

    /// How many outputs were seen.
    pub open spec fn total(self) -> nat {
        self.success_count + self.error_count
    }

    /// The time from the earliest start to the latest end, in nanoseconds.
    pub open spec fn duration_ns(self) -> int {
        self.end_ns - self.start_ns
    }

    /// The latency at the nearest rank of the `percent`-th percentile.
    pub open spec fn percentile(self, percent: nat) -> i64 {
        ascending(self.latencies)[percentile_index(self.latencies.len(), percent)]
    }

    /// The figures of a report.
    pub open spec fn summary(self) -> Summary {
        Summary {
            total: self.total() as u64,
            success_count: self.success_count as u64,
            error_count: self.error_count as u64,
            duration_ns: self.duration_ns() as i128,
            latency_p0_ns: self.percentile(0),
            latency_p50_ns: self.percentile(50),
            latency_p90_ns: self.percentile(90),
            latency_p99_ns: self.percentile(99),
            latency_p100_ns: self.percentile(100),
        }
    }

    /// The statistics after the outputs `cores`, sent in that order.
    pub open spec fn record_all(self, cores: Seq<OutputCore>) -> Stats
        decreases cores.len(),
    {
        if cores.len() == 0 {
            self
        } else {
            self.record_all(cores.drop_last()).record(cores.last())
        }
    }
}

/// How many of `cores` carry an error.
pub open spec fn failures(cores: Seq<OutputCore>) -> nat {
    cores.filter(|core: OutputCore| core.failed()).len()
}

/// Every output is counted once, as a failure if it carries an error and as
/// a success if not, and leaves one latency behind.
pub proof fn lemma_counts_after_outputs(stats: Stats, cores: Seq<OutputCore>)
    ensures
        stats.record_all(cores).total() == stats.total() + cores.len(),
        stats.record_all(cores).error_count == stats.error_count + failures(cores),
        stats.record_all(cores).success_count == stats.success_count + cores.len() - failures(
            cores,
        ),
        stats.record_all(cores).latencies.len() == stats.latencies.len() + cores.len(),
        failures(cores) <= cores.len(),
    decreases cores.len(),
{
    reveal(Seq::filter);
    if cores.len() > 0 {
        lemma_counts_after_outputs(stats, cores.drop_last());
    }
}

/// A sink that has only seen failures counts every output as an error and
/// none as a success; one that has only seen successes counts the other way
/// round.
pub proof fn lemma_counts_of_uniform_outputs(cores: Seq<OutputCore>)
    ensures
        (forall|i: int| 0 <= i < cores.len() ==> cores[i].failed()) ==> {
            &&& Stats::empty().record_all(cores).error_count == cores.len()
            &&& Stats::empty().record_all(cores).success_count == 0
        },
        (forall|i: int| 0 <= i < cores.len() ==> !cores[i].failed()) ==> {
            &&& Stats::empty().record_all(cores).success_count == cores.len()
            &&& Stats::empty().record_all(cores).error_count == 0
        },
    decreases cores.len(),
{
    reveal(Seq::filter);
    lemma_counts_after_outputs(Stats::empty(), cores);
    if cores.len() > 0 {
        lemma_counts_of_uniform_outputs(cores.drop_last());
        lemma_counts_after_outputs(Stats::empty(), cores.drop_last());
    }
}

/// After at least one output the sink holds the earliest start and the
/// latest end among all outputs it has seen, and the latency of each in the
/// order of arrival.
pub proof fn lemma_span_of_outputs(cores: Seq<OutputCore>)
    requires
        cores.len() > 0,
    ensures
        forall|i: int|
            0 <= i < cores.len() ==> Stats::empty().record_all(cores).start_ns
                <= #[trigger] cores[i].start_ns,
        exists|i: int|
            0 <= i < cores.len() && Stats::empty().record_all(cores).start_ns
                == #[trigger] cores[i].start_ns,
        forall|i: int|
            0 <= i < cores.len() ==> Stats::empty().record_all(cores).end_ns
                >= #[trigger] cores[i].end_ns,
        exists|i: int|
            0 <= i < cores.len() && Stats::empty().record_all(cores).end_ns
                == #[trigger] cores[i].end_ns,
        Stats::empty().record_all(cores).latencies.len() == cores.len(),
        forall|i: int|
            0 <= i < cores.len() && (#[trigger] cores[i]).latency_fits() ==> Stats::empty().record_all(
                cores,
            ).latencies[i] == cores[i].latency(),
    decreases cores.len(),
{
    let before = Stats::empty().record_all(cores.drop_last());
    let after = Stats::empty().record_all(cores);
    let last = cores.len() - 1;
    lemma_counts_after_outputs(Stats::empty(), cores.drop_last());
    assert(after == before.record(cores.last()));
    if cores.len() == 1 {
        assert(cores[0].start_ns == after.start_ns);
        assert(cores[0].end_ns == after.end_ns);
    } else {
        lemma_span_of_outputs(cores.drop_last());
        let i_start = choose|i: int|
            0 <= i < cores.drop_last().len() && before.start_ns
                == #[trigger] cores.drop_last()[i].start_ns;
        let i_end = choose|i: int|
            0 <= i < cores.drop_last().len() && before.end_ns
                == #[trigger] cores.drop_last()[i].end_ns;
        assert(cores[i_start] == cores.drop_last()[i_start]);
        assert(cores[i_end] == cores.drop_last()[i_end]);
        let w_start = if cores[last].start_ns < before.start_ns { last } else { i_start };
        let w_end = if cores[last].end_ns > before.end_ns { last } else { i_end };
        assert(cores[w_start].start_ns == after.start_ns);
        assert(cores[w_end].end_ns == after.end_ns);
        assert forall|i: int| 0 <= i < cores.len() implies after.start_ns
            <= #[trigger] cores[i].start_ns && after.end_ns >= cores[i].end_ns by {
            if i < last {
                assert(cores[i] == cores.drop_last()[i]);
            }
        }
        assert forall|i: int|
            0 <= i < cores.len() && (#[trigger] cores[i]).latency_fits() implies after.latencies[i]
            == cores[i].latency() by {
            if i < last {
                assert(cores[i] == cores.drop_last()[i]);
                assert(after.latencies[i] == before.latencies[i]);
            }
        }
    }
}

/// Any ascending arrangement of the same values is the ascending order.
pub proof fn lemma_ascending_unique(latencies: Seq<i64>, arranged: Seq<i64>)
    requires
        arranged.to_multiset() == latencies.to_multiset(),
        forall|i: int, j: int| 0 <= i <= j < arranged.len() ==> arranged[i] <= arranged[j],
    ensures
        ascending(latencies) == arranged,
{
    assert(total_ordering(at_most()));
    latencies.lemma_sort_by_ensures(at_most());
    assert(sorted_by(arranged, at_most()));
    lemma_sorted_unique(ascending(latencies), arranged, at_most());
}

/// A percentile's rank lies inside the list it ranks.
pub proof fn lemma_percentile_index_in_range(count: nat, percent: nat)
    requires
        count > 0,
        percent <= 100,
    ensures
        0 <= percentile_index(count, percent) < count,
        percentile_index(count, 0) == 0,
        percentile_index(count, 100) == count - 1,
{
    assert((count - 1) * percent <= (count - 1) * 100) by (nonlinear_arith)
        requires
            count > 0,
            percent <= 100,
    ;
    assert(0 <= (count - 1) * percent) by (nonlinear_arith)
        requires
            count > 0,
    ;
    assert((count - 1) * 0 == 0);
}

/// Sorts in place with the standard library's `sort_unstable` on slices,
/// which leaves the same values behind in ascending order.
#[verifier::external_body]
fn sort_ascending(values: &mut Vec<i64>)
    ensures
        final(values)@.to_multiset() == old(values)@.to_multiset(),
        forall|i: int, j: int|
            0 <= i <= j < final(values)@.len() ==> final(values)@[i] <= final(values)@[j],
{
    values.sort_unstable();
}

/// Produce some stats from the outputs.
#[derive(Debug)]
pub struct StatsOutputSink {
    error_count: u64,
    success_count: u64,
    latency_ns: Vec<i64>,
    start_ns: i64,
    end_ns: i64,
}

impl View for StatsOutputSink {
    type V = Stats;

    closed spec fn view(&self) -> Stats {
        Stats {
            error_count: self.error_count as nat,
            success_count: self.success_count as nat,
            latencies: self.latency_ns@,
            start_ns: self.start_ns,
            end_ns: self.end_ns,
        }
    }
}

impl StatsOutputSink {
    #[verifier::type_invariant]
    spec fn counts_every_latency(self) -> bool {
        self.success_count + self.error_count == self.latency_ns@.len()
    }
}

impl Default for StatsOutputSink {
    fn default() -> (sink: Self)
        ensures
            sink@ == Stats::empty(),
    {
        StatsOutputSink {
            error_count: 0,
            success_count: 0,
            latency_ns: Vec::new(),
            start_ns: 0,
            end_ns: 0,
        }
    }
}

/// The entry of an ascending list of `count` values at the nearest rank of
/// the `percent`-th percentile.
fn nearest_rank(count: usize, percent: u8) -> (index: usize)
    requires
        count > 0,
        percent <= 100,
    ensures
        index == percentile_index(count as nat, percent as nat),
        index < count,
{
    proof {
        lemma_percentile_index_in_range(count as nat, percent as nat);
        assert((count - 1) * percent <= (count - 1) * 100) by (nonlinear_arith)
            requires
                count > 0,
                percent <= 100,
        ;
    }
    let scaled: u128 = (count - 1) as u128 * (percent as u128);
    (scaled / 100) as usize
}

impl StatsOutputSink {
    /// How many outputs were seen.
    pub fn total(&self) -> (total: u64)
        ensures
            total == self@.total(),
    {
        proof {
            use_type_invariant(self);
            assert(self.latency_ns@.len() == self.latency_ns.len() <= u64::MAX);
        }
        self.success_count + self.error_count
    }

    /// How many of the outputs seen carried no error.
    pub fn success_count(&self) -> (count: u64)
        ensures
            count == self@.success_count,
    {
        self.success_count
    }

    /// How many of the outputs seen carried an error.
    pub fn error_count(&self) -> (count: u64)
        ensures
            count == self@.error_count,
    {
        self.error_count
    }

    /// The time from the earliest start to the latest end among the outputs
    /// seen, in nanoseconds.
    pub fn duration_ns(&self) -> (duration: i128)
        ensures
            duration == self@.duration_ns(),
    {
        self.end_ns as i128 - self.start_ns as i128
    }

    /// The latency at the nearest rank of the `percent`-th percentile: the
    /// entry `(n - 1) * percent / 100`, rounded down, of the `n` latencies in
    /// ascending order.
    pub fn percentile(&self, percent: u8) -> (latency: i64)
        requires
            self@.latencies.len() > 0,
            percent <= 100,
        ensures
            latency == self@.percentile(percent as nat),
    {
        let sorted = self.sorted_latencies();
        sorted[nearest_rank(sorted.len(), percent)]
    }

    /// The figures of a report: the counts, the duration and the five
    /// percentiles 0, 50, 90, 99 and 100.
    pub fn summary(&self) -> (summary: Summary)
        requires
            self@.latencies.len() > 0,
        ensures
            summary == self@.summary(),
    {
        let sorted = self.sorted_latencies();
        let count = sorted.len();
        Summary {
            total: self.total(),
            success_count: self.success_count,
            error_count: self.error_count,
            duration_ns: self.duration_ns(),
            latency_p0_ns: sorted[nearest_rank(count, 0)],
            latency_p50_ns: sorted[nearest_rank(count, 50)],
            latency_p90_ns: sorted[nearest_rank(count, 90)],
            latency_p99_ns: sorted[nearest_rank(count, 99)],
            latency_p100_ns: sorted[nearest_rank(count, 100)],
        }
    }

    /// A sorted copy of the latencies.
    fn sorted_latencies(&self) -> (sorted: Vec<i64>)
        ensures
            sorted@ == ascending(self@.latencies),
            sorted@.len() == self@.latencies.len(),
    {
        let mut sorted = self.latency_ns.clone();
        assert(sorted@ == self.latency_ns@);
        sort_ascending(&mut sorted);
        proof {
            lemma_ascending_unique(self.latency_ns@, sorted@);
            vstd::seq_lib::to_multiset_len(sorted@);
            vstd::seq_lib::to_multiset_len(self.latency_ns@);
        }
        sorted
    }
}

impl<O> OutputSink<O> for StatsOutputSink {
    fn send(&mut self, output: Output<O>)
        ensures
            final(self)@ == old(self)@.record(output.core),
    {
        // The counts and the latencies change together, so the sink is taken
        // apart and put together again in one piece.
        let mut seen = StatsOutputSink::default();
        core::mem::swap(self, &mut seen);
        proof {
            use_type_invariant(&seen);
        }
        let StatsOutputSink { error_count, success_count, latency_ns, start_ns, end_ns } = seen;
        let mut latency_ns = latency_ns;
        let first = latency_ns.len() == 0;
        latency_ns.push(output.core.end_ns - output.core.start_ns);
        assert(error_count + success_count < latency_ns.len() <= u64::MAX);
        let failed = output.is_error();
        *self = StatsOutputSink {
            error_count: if failed { error_count + 1 } else { error_count },
            success_count: if failed { success_count } else { success_count + 1 },
            latency_ns,
            start_ns: if first || output.core.start_ns < start_ns { output.core.start_ns } else { start_ns },
            end_ns: if first || output.core.end_ns > end_ns { output.core.end_ns } else { end_ns },
        };
    }
}

} // verus!
