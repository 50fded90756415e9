//! Workers: the dispatcher that a worker drives, and the bookkeeping that
//! turns each input it serves into one output.

use crate::output::Output;
use crate::output::OutputCore;
use crate::output::now_ns;
use crate::output_sink::lemma_counts_of_uniform_outputs;
use crate::output_sink::lemma_counts_after_outputs;
use crate::output_sink::Stats;
use vstd::prelude::*;

verus! {

/// Makes one dispatcher per worker.
pub trait DispatcherGenerator {
    type Dispatcher: Dispatcher;

    /// Creates the dispatcher of a new worker.
    fn generate(&mut self) -> Self::Dispatcher;
}

/// Executes one input at a time on behalf of one worker.
pub trait Dispatcher: Send + 'static {
    type Input: Send;

    type Output: Send + Default;

    /// Executes `request`, giving its payload or the message of its failure.
    fn execute(&mut self, request: Self::Input) -> Result<Self::Output, String>;
}

/// What a worker has done so far.
pub struct Served<O> {
    /// The id of the worker.
    pub client: u32,
    /// How many inputs the worker has served.
    pub iteration: nat,
    /// The outputs of the worker, oldest first.
    pub outputs: Seq<Output<O>>,
}

/// The output of an execution that was opened as `opened` and ended at `now`
/// with `result`: a payload replaces the default one, a failure is recorded
/// as the error and leaves the payload as it was.
pub open spec fn closed_output<O>(opened: Output<O>, result: Result<O, String>, now: i64) -> Output<
    O,
> {
    match result {
        Ok(data) => Output { core: opened.core.stopped_at(now), custom: data },
        Err(message) => Output { core: opened.core.failed_at(message, now), custom: opened.custom },
    }
}

impl<O> Served<O> {
    /// A worker that has served nothing.
    pub open spec fn fresh(client: u32) -> Served<O> {
        Served { client, iteration: 0, outputs: Seq::empty() }
    }

    /// The worker after it has served one more input with one output.
    pub open spec fn with_output(self, output: Output<O>) -> Served<O> {
        Served {
            client: self.client,
            iteration: self.iteration + 1,
            outputs: self.outputs.push(output),
        }
    }

    /// The worker after it has served one more input with the outputs
    /// `produced`, however many.
    pub open spec fn with_outputs(self, produced: Seq<Output<O>>) -> Served<O> {
        Served {
            client: self.client,
            iteration: self.iteration + 1,
            outputs: self.outputs + produced,
        }
    }

    /// Every output carries the id of the worker and the number of the input
    /// it belongs to, counted from zero.
    pub open spec fn numbered(self) -> bool {
        &&& self.outputs.len() == self.iteration
        &&& forall|i: int|
            0 <= i < self.outputs.len() ==> {
                &&& (#[trigger] self.outputs[i]).core.client == self.client
                &&& self.outputs[i].core.iteration == i
            }
    }
}

/// One input leaves exactly one output, and a worker that closes the outputs
/// it opened numbers them: each carries the id of the worker and the number
/// of its input, so no two outputs of a worker share both.
pub proof fn lemma_outputs_stay_numbered<O>(
    served: Served<O>,
    opened: Output<O>,
    result: Result<O, String>,
    now: i64,
)
    requires
        served.numbered(),
        opened.core.client == served.client,
        opened.core.iteration == served.iteration,
    ensures
        served.with_output(closed_output(opened, result, now)).numbered(),
        served.with_output(closed_output(opened, result, now)).outputs.len() == served.outputs.len()
            + 1,
        forall|i: int, j: int|
            #![trigger served.outputs[i], served.outputs[j]]
            0 <= i < j < served.outputs.len() ==> served.outputs[i].core.iteration
                != served.outputs[j].core.iteration,
{
}

/// A failed execution is recorded on its output and nowhere else: the output
/// carries the message and the payload it was opened with. A successful one
/// carries the payload it produced and no new error.
pub proof fn lemma_result_is_recorded<O>(opened: Output<O>, data: O, message: String, now: i64)
    ensures
        closed_output(opened, Err(message), now).core.failed(),
        closed_output(opened, Err(message), now).core.error == Some(message),
        closed_output(opened, Err(message), now).custom == opened.custom,
        closed_output(opened, Ok(data), now).core.failed() == opened.core.failed(),
        closed_output(opened, Ok(data), now).custom == data,
        closed_output(opened, Err(message), now).core.end_ns == now,
        closed_output(opened, Ok(data), now).core.end_ns == now,
{
}

/// The cores of the outputs that were opened as `opened` and closed with
/// `results` at the instants `ends`, one by one.
pub open spec fn closed_cores<O>(
    opened: Seq<Output<O>>,
    results: Seq<Result<O, String>>,
    ends: Seq<i64>,
) -> Seq<OutputCore> {
    Seq::new(opened.len(), |i: int| closed_output(opened[i], results[i], ends[i]).core)
}

/// A statistics sink that is sent the outputs of a run counts one output for
/// each input that was served. If every execution failed, every output is an
/// error, and the sink counts them all as errors and none as a success; if
/// none failed, it counts them all as successes.
pub proof fn lemma_sink_counts_every_result<O>(
    opened: Seq<Output<O>>,
    results: Seq<Result<O, String>>,
    ends: Seq<i64>,
)
    requires
        opened.len() == results.len(),
        opened.len() == ends.len(),
        forall|i: int| 0 <= i < opened.len() ==> !(#[trigger] opened[i]).core.failed(),
    ensures
        Stats::empty().record_all(closed_cores(opened, results, ends)).total() == opened.len(),
        (forall|i: int| 0 <= i < results.len() ==> #[trigger] results[i] is Err) ==> {
            &&& forall|i: int|
                0 <= i < opened.len() ==> (#[trigger] closed_cores(
                    opened,
                    results,
                    ends,
                )[i]).failed()
            &&& Stats::empty().record_all(closed_cores(opened, results, ends)).error_count
                == opened.len()
            &&& Stats::empty().record_all(closed_cores(opened, results, ends)).success_count == 0
        },
        (forall|i: int| 0 <= i < results.len() ==> #[trigger] results[i] is Ok) ==> {
            &&& Stats::empty().record_all(closed_cores(opened, results, ends)).success_count
                == opened.len()
            &&& Stats::empty().record_all(closed_cores(opened, results, ends)).error_count == 0
        },
{
    let cores = closed_cores(opened, results, ends);
    lemma_counts_after_outputs(Stats::empty(), cores);
    lemma_counts_of_uniform_outputs(cores);
    if forall|i: int| 0 <= i < results.len() ==> #[trigger] results[i] is Err {
        assert forall|i: int| 0 <= i < cores.len() implies cores[i].failed() by {
            assert(results[i] is Err);
        }
    }
    if forall|i: int| 0 <= i < results.len() ==> #[trigger] results[i] is Ok {
        assert forall|i: int| 0 <= i < cores.len() implies !cores[i].failed() by {
            assert(results[i] is Ok);
            assert(!opened[i].core.failed());
        }
    }
}

/// A fresh worker has numbered all of its outputs: it has none.
pub proof fn lemma_fresh_is_numbered<O>(client: u32)
    ensures
        Served::<O>::fresh(client).numbered(),
{
}

/// The bookkeeping of one worker: its id, the number of its next input, and
/// the outputs it has produced.
pub struct ClientRunner<O> {
    client: u32,
    iteration: u32,
    outputs: Vec<Output<O>>,
}

impl<O> View for ClientRunner<O> {
    type V = Served<O>;

    closed spec fn view(&self) -> Served<O> {
        Served { client: self.client, iteration: self.iteration as nat, outputs: self.outputs@ }
    }
}

impl<O> ClientRunner<O> {
    /// The bookkeeping of the worker with id `client`, before its first input.
    pub fn new(client: u32) -> (runner: Self)
        ensures
            runner@ == Served::<O>::fresh(client),
    {
        ClientRunner { client, iteration: 0, outputs: Vec::new() }
    }

    /// The id of the worker.
    pub fn client(&self) -> (client: u32)
        ensures
            client == self@.client,
    {
        self.client
    }

    /// The number of the next input, counted from zero.
    pub fn iteration(&self) -> (iteration: u32)
        ensures
            iteration == self@.iteration,
    {
        self.iteration
    }

    /// Whether the worker can number one more input.
    pub fn has_room(&self) -> (room: bool)
        ensures
            room == (self@.iteration < u32::MAX),
    {
        self.iteration < u32::MAX
    }

    /// Closes `opened` at the instant `now` with what the dispatcher gave,
    /// appends it to the outputs and moves on to the next iteration. A
    /// failure does not stop the worker: it is recorded on the output.
    pub fn complete_at(&mut self, opened: Output<O>, result: Result<O, String>, now: i64)
        requires
            old(self)@.iteration < u32::MAX,
        ensures
            final(self)@ == old(self)@.with_output(closed_output(opened, result, now)),
    {
        let mut output = opened;
        output.stop_at(now);
        match result {
            Ok(data) => {
                *output.data_mut() = data;
            },
            Err(error) => {
                output.error_at(error, now);
            },
        }
        self.outputs.push(output);
        self.iteration = self.iteration + 1;
    }

    /// Closes `opened` at the current time with what the dispatcher gave,
    /// appends it to the outputs and moves on to the next iteration.
    pub fn complete(&mut self, opened: Output<O>, result: Result<O, String>)
        requires
            old(self)@.iteration < u32::MAX,
        ensures
            final(self)@ == old(self)@.with_output(
                closed_output(opened, result, final(self)@.outputs.last().core.end_ns),
            ),
            final(self)@.outputs.last().core.end_ns >= 0,
    {
        let now = now_ns();
        self.complete_at(opened, result, now);
    }

    /// Appends the outputs that a dispatcher produced for one input, each
    /// timed and finalized by the dispatcher itself, and moves on to the next
    /// iteration.
    pub fn complete_scenario(&mut self, produced: Vec<Output<O>>)
        requires
            old(self)@.iteration < u32::MAX,
        ensures
            final(self)@ == old(self)@.with_outputs(produced@),
    {
        let mut produced = produced;
        self.outputs.append(&mut produced);
        self.iteration = self.iteration + 1;
    }

    /// The outputs of the worker, oldest first.
    pub fn finish(self) -> (outputs: Vec<Output<O>>)
        ensures
            outputs@ == self@.outputs,
    {
        self.outputs
    }
}

impl<O: Default> ClientRunner<O> {
    /// Opens the output of the next input at the current time.
    pub fn begin(&self) -> (opened: Output<O>)
        ensures
            opened.core == OutputCore::started(
                self@.client,
                self@.iteration as u32,
                opened.core.start_ns,
            ),
            opened.core.start_ns >= 0,
            call_ensures(O::default, (), opened.custom),
    {
        Output::start(self.client, self.iteration)
    }

    /// Opens the output of the next input at the instant `now`.
    pub fn begin_at(&self, now: i64) -> (opened: Output<O>)
        ensures
            opened.core == OutputCore::started(self@.client, self@.iteration as u32, now),
            call_ensures(O::default, (), opened.custom),
    {
        Output::start_at(self.client, self.iteration, now)
    }

    /// Serves one input: opens an output, lets `dispatcher` execute `input`,
    /// and closes the output with the result. Exactly one output is appended,
    /// whether the dispatcher succeeded or failed; it carries the id of the
    /// worker and the number of the input.
    pub fn dispatch<D>(&mut self, dispatcher: &mut D, input: D::Input) where
        D: Dispatcher<Output = O>,

        requires
            old(self)@.iteration < u32::MAX,
        ensures
            final(self)@.client == old(self)@.client,
            final(self)@.iteration == old(self)@.iteration + 1,
            final(self)@.outputs.len() == old(self)@.outputs.len() + 1,
            final(self)@.outputs.drop_last() == old(self)@.outputs,
            final(self)@.outputs.last().core.client == old(self)@.client,
            final(self)@.outputs.last().core.iteration == old(self)@.iteration,
            final(self)@.outputs.last().core.since_epoch(),
            old(self)@.numbered() ==> final(self)@.numbered(),
    {
        let ghost before = self@;
        let opened = self.begin();
        let result = dispatcher.execute(input);
        let ghost closing = (opened, result);
        self.complete(opened, result);
        proof {
            if before.numbered() {
                lemma_outputs_stay_numbered(
                    before,
                    closing.0,
                    closing.1,
                    self@.outputs.last().core.end_ns,
                );
            }
        }
    }
}

} // verus!
