//! Writers: the output sinks under another name, for callers that hand
//! their outputs to a `Writer`.

use crate::output::Output;
use crate::output_sink::OutputSink;
use crate::output_sink::Stats;
use crate::output_sink::StatsOutputSink;
use crate::output_sink::Summary;
use vstd::prelude::*;

verus! {

/// Something that outputs are written to.
pub trait Writer<O> {
    /// Consumes one output.
    fn write(&mut self, output: Output<O>)
        requires
            output.core.latency_fits(),
    ;
}

/// Do nothing with the outputs.
pub struct NoOpWriter;

impl<O> Writer<O> for NoOpWriter {
    fn write(&mut self, _output: Output<O>) {
    }
}

/// Produce some stats from the outputs.
#[derive(Debug)]
pub struct StatsWriter {
    sink: StatsOutputSink,
}

impl View for StatsWriter {
    type V = Stats;

    closed spec fn view(&self) -> Stats {
        self.sink@
    }
}

impl Default for StatsWriter {
    fn default() -> (writer: Self)
        ensures
            writer@ == Stats::empty(),
    {
        StatsWriter { sink: StatsOutputSink::default() }
    }
}

impl<O> Writer<O> for StatsWriter {
    fn write(&mut self, output: Output<O>)
        ensures
            final(self)@ == old(self)@.record(output.core),
    {
        self.sink.send(output);
    }
}

impl StatsWriter {
    /// The sink that keeps the statistics.
    pub fn as_sink(&self) -> (sink: &StatsOutputSink)
        ensures
            sink@ == self@,
    {
        &self.sink
    }

    /// The figures of a report: the counts, the duration and the five
    /// percentiles 0, 50, 90, 99 and 100.
    pub fn summary(&self) -> (summary: Summary)
        requires
            self@.latencies.len() > 0,
        ensures
            summary == self@.summary(),
    {
        self.sink.summary()
    }
}

} // verus!
