//! The decisions of a run: when to start a worker, when to pull and admit an
//! input, when to wait, and when to stop and drain.
//!
//! The generator itself performs no work. It names the next [`Action`]; the
//! driver carries it out on the channel, the clock and the worker tasks, and
//! reports what happened as an [`Event`]. One round admits one input:
//! pull it, offer it to the single-slot channel, start one more worker if the
//! channel was full and the pool may still grow, send it, wait for the tick.

use vstd::prelude::*;

verus! {

/// The number of nanoseconds in a second.
pub const NANOS_PER_SECOND: u64 = 1_000_000_000;

/// The capacity of the channel between the generator and the workers. With
/// a single slot a full channel means that no worker is idle.
pub const CHANNEL_CAPACITY: usize = 1;

/// A message to a worker.
pub enum Msg {
    /// Stay idle for this long.
    Sleep(std::time::Duration),
}

/// Why a run cannot be set up.
#[derive(Debug, Clone, Copy, PartialEq, Eq, Structural)]
pub enum ConfigError {
    /// The target rate is zero.
    ZeroRate,
    /// The total number of requests is zero.
    ZeroTotal,
}

/// What the driver is asked to do next.
#[derive(Debug, Clone, Copy, PartialEq, Eq, Structural)]
pub enum Action {
    /// Create a dispatcher and start the worker with this id on it.
    Spawn { client: u32 },
    /// Ask the input generator for the next input.
    Pull,
    /// Offer the input to the channel without waiting.
    Offer,
    /// Send the same input to the channel, waiting for room.
    Send,
    /// Wait for the next tick.
    Tick,
    /// Close the channel, then the input generator.
    Close,
    /// Await the worker with this id and forward its outputs to the sink.
    Join { client: u32 },
    /// Nothing is left to do; this many workers were started.
    Finish { clients: u32 },
}

/// What came of the last action.
#[derive(Debug, Clone, Copy, PartialEq, Eq, Structural)]
pub enum Event {
    /// The action was carried out; answers `Spawn`, `Tick`, `Close` and `Join`.
    Done,
    /// The input generator handed over an input; answers `Pull`.
    Input,
    /// The input generator has no more inputs; answers `Pull`.
    Exhausted,
    /// The channel took the input; answers `Offer` and `Send`.
    Accepted,
    /// The channel is full, so no worker is idle; answers `Offer`.
    Full,
    /// The channel is closed; answers `Offer` and `Send`.
    Closed,
    /// The worker ended abnormally and its outputs are lost; answers `Join`.
    Failed,
}

/// Where a run stands.
#[derive(Debug, Clone, Copy, PartialEq, Eq, Structural)]
pub enum Phase {
    /// Starting the initial workers.
    Starting,
    /// Waiting for the input generator.
    Pulling,
    /// Waiting for the channel to take or refuse the input.
    Offering,
    /// Starting one more worker after the channel was full.
    Growing,
    /// Waiting for the channel to take the input.
    Sending,
    /// Waiting for the next tick.
    Ticking,
    /// Closing the channel and the input generator.
    Closing,
    /// Awaiting the workers, in the order in which they were started.
    Joining,
    /// Over.
    Finished,
}

/// Why a run stopped admitting inputs.
#[derive(Debug, Clone, Copy, PartialEq, Eq, Structural)]
pub enum StopReason {
    /// As many inputs as were asked for have been admitted.
    TotalReached,
    /// The input generator ran out of inputs.
    InputExhausted,
    /// The channel was found closed.
    ChannelClosed,
}

/// The state of a run, as numbers without bounds.
pub struct Run {
    /// Requests per second to aim for.
    pub rate: nat,
    /// How many inputs to admit at most.
    pub total: nat,
    /// How many workers to start before the first input.
    pub initial_clients: nat,
    /// The size beyond which backpressure starts no worker, if any.
    pub max_clients: Option<nat>,
    /// Where the run stands.
    pub phase: Phase,
    /// How many workers have been started; the last one has this id.
    pub clients: nat,
    /// How many inputs the channel has taken.
    pub admitted: nat,
    /// How many workers have been awaited.
    pub joined: nat,
    /// How many of the awaited workers had ended abnormally.
    pub failed: nat,
    /// Why admission stopped, once it has.
    pub stop: Option<StopReason>,
}

impl Run {
    /// A run before anything has happened.
    pub open spec fn initial(
        rate: nat,
        initial_clients: nat,
        total: nat,
        max_clients: Option<nat>,
    ) -> Run {
        Run {
            rate,
            total,
            initial_clients,
            max_clients,
            phase: if initial_clients > 0 {
                Phase::Starting
            } else {
                Phase::Pulling
            },
            clients: if initial_clients > 0 {
                1
            } else {
                0
            },
            admitted: 0,
            joined: 0,
            failed: 0,
            stop: None,
        }
    }

    /// The period of the tick in nanoseconds.
    pub open spec fn interval_nanos(self) -> nat {
        NANOS_PER_SECOND as nat / self.rate
    }

    /// The pool size at which backpressure stops starting workers: the
    /// configured maximum, or else the number of worker ids there are.
    pub open spec fn cap(self) -> nat {
        match self.max_clients {
            Some(max) => max,
            None => u32::MAX as nat,
        }
    }

    /// Whether backpressure may start one more worker.
    pub open spec fn can_grow(self) -> bool {
        self.clients < self.cap()
    }

    /// The action that the run is waiting for.
    pub open spec fn action(self) -> Action {
        match self.phase {
            Phase::Starting | Phase::Growing => Action::Spawn { client: self.clients as u32 },
            Phase::Pulling => Action::Pull,
            Phase::Offering => Action::Offer,
            Phase::Sending => Action::Send,
            Phase::Ticking => Action::Tick,
            Phase::Closing => Action::Close,
            Phase::Joining => Action::Join { client: (self.joined + 1) as u32 },
            Phase::Finished => Action::Finish { clients: self.clients as u32 },
        }
    }

    /// The run with admission stopped for `reason`.
    pub open spec fn stopped(self, reason: StopReason) -> Run {
        Run { phase: Phase::Closing, stop: Some(reason), ..self }
    }

    /// The run after one more worker has been awaited.
    pub open spec fn joined_one(self, failed: bool) -> Run {
        Run {
            phase: if self.joined + 1 < self.clients {
                Phase::Joining
            } else {
                Phase::Finished
            },
            joined: self.joined + 1,
            failed: if failed {
                self.failed + 1
            } else {
                self.failed
            },
            ..self
        }
    }

    /// The run after `event` has answered its action. An event that does not
    /// answer the action leaves the run as it is.
    pub open spec fn next(self, event: Event) -> Run {
        match (self.phase, event) {
            (Phase::Starting, Event::Done) => if self.clients < self.initial_clients {
                Run { clients: self.clients + 1, ..self }
            } else {
                Run { phase: Phase::Pulling, ..self }
            },
            (Phase::Pulling, Event::Input) => Run { phase: Phase::Offering, ..self },
            (Phase::Pulling, Event::Exhausted) => self.stopped(StopReason::InputExhausted),
            (Phase::Offering, Event::Accepted) | (Phase::Sending, Event::Accepted) => Run {
                phase: Phase::Ticking,
                admitted: self.admitted + 1,
                ..self
            },
            (Phase::Offering, Event::Full) => if self.can_grow() {
                Run { phase: Phase::Growing, clients: self.clients + 1, ..self }
            } else {
                Run { phase: Phase::Sending, ..self }
            },
            (Phase::Offering, Event::Closed) | (Phase::Sending, Event::Closed) => self.stopped(
                StopReason::ChannelClosed,
            ),
            (Phase::Growing, Event::Done) => Run { phase: Phase::Sending, ..self },
            (Phase::Ticking, Event::Done) => if self.admitted == self.total {
                self.stopped(StopReason::TotalReached)
            } else {
                Run { phase: Phase::Pulling, ..self }
            },
            (Phase::Closing, Event::Done) => if self.clients == 0 {
                Run { phase: Phase::Finished, ..self }
            } else {
                Run { phase: Phase::Joining, ..self }
            },
            (Phase::Joining, Event::Done) => self.joined_one(false),
            (Phase::Joining, Event::Failed) => self.joined_one(true),
            _ => self,
        }
    }

    /// The run after the events `events`, in that order.
    pub open spec fn after(self, events: Seq<Event>) -> Run
        decreases events.len(),
    {
        if events.len() == 0 {
            self
        } else {
            self.after(events.drop_last()).next(events.last())
        }
    }

    /// What holds of every run that started from [`Run::initial`].
    pub open spec fn wf(self) -> bool {
        &&& 0 < self.rate <= u64::MAX
        &&& 0 < self.total <= u64::MAX
        &&& self.initial_clients <= u32::MAX
        &&& self.cap() <= u32::MAX
        &&& self.clients <= self.initial_clients || self.clients <= self.cap()
        &&& self.admitted <= self.total
        &&& self.failed <= self.joined <= self.clients
        &&& self.stop == Some(StopReason::TotalReached) ==> self.admitted == self.total
        &&& match self.phase {
            Phase::Starting => {
                &&& 1 <= self.clients <= self.initial_clients
                &&& self.admitted == 0
            },
            Phase::Pulling | Phase::Offering | Phase::Sending => {
                &&& self.initial_clients <= self.clients
                &&& self.admitted < self.total
            },
            Phase::Growing => {
                &&& self.initial_clients <= self.clients
                &&& self.admitted < self.total
                &&& 1 <= self.clients
            },
            Phase::Ticking => {
                &&& self.initial_clients <= self.clients
                &&& 1 <= self.admitted
            },
            Phase::Closing => self.initial_clients <= self.clients,
            Phase::Joining => {
                &&& self.initial_clients <= self.clients
                &&& self.joined < self.clients
            },
            Phase::Finished => {
                &&& self.initial_clients <= self.clients
                &&& self.joined == self.clients
            },
        }
        &&& match self.phase {
            Phase::Closing => self.joined == 0 && self.stop is Some,
            Phase::Joining | Phase::Finished => self.stop is Some,
            _ => self.joined == 0 && self.stop is None,
        }
    }
}

/// A run that has been set up keeps its shape: whatever event arrives, the
/// counters stay within their bounds and the phase agrees with them.
pub proof fn lemma_next_keeps_wf(run: Run, event: Event)
    requires
        run.wf(),
    ensures
        run.next(event).wf(),
{
}

/// Every run starts well-formed.
pub proof fn lemma_initial_wf(rate: u64, initial_clients: u32, total: u64, max_clients: Option<u32>)
    requires
        rate > 0,
        total > 0,
    ensures
        Run::initial(
            rate as nat,
            initial_clients as nat,
            total as nat,
            match max_clients {
                Some(max) => Some(max as nat),
                None => None,
            },
        ).wf(),
{
}

/// The configuration of a run never changes.
pub open spec fn same_config(before: Run, after: Run) -> bool {
    &&& after.rate == before.rate
    &&& after.total == before.total
    &&& after.initial_clients == before.initial_clients
    &&& after.max_clients == before.max_clients
}

/// Whatever events arrive, in whatever order, a run keeps its shape and its
/// configuration.
pub proof fn lemma_after_keeps_wf(run: Run, events: Seq<Event>)
    requires
        run.wf(),
    ensures
        run.after(events).wf(),
        same_config(run, run.after(events)),
    decreases events.len(),
{
    if events.len() > 0 {
        lemma_after_keeps_wf(run, events.drop_last());
        lemma_next_keeps_wf(run.after(events.drop_last()), events.last());
    }
}

/// The pool grows by one worker at a time and for two causes only: an
/// initial worker is still owed, or the channel was full while the pool may
/// grow. Whenever it grows, the next action starts the worker with the next
/// id. No event makes it shrink.
pub proof fn lemma_pool_grows_only_on_demand(run: Run, event: Event)
    requires
        run.wf(),
    ensures
        run.clients <= run.next(event).clients <= run.clients + 1,
        run.next(event).clients == run.clients + 1 <==> {
            ||| run.phase == Phase::Starting && event == Event::Done && run.clients
                < run.initial_clients
            ||| run.phase == Phase::Offering && event == Event::Full && run.can_grow()
        },
        run.next(event).clients == run.clients + 1 ==> run.next(event).action() == (Action::Spawn {
            client: (run.clients + 1) as u32,
        }),
{
}

/// Without a maximum, every full channel starts exactly one worker, the one
/// with the next id, and the input is sent once that worker exists.
pub proof fn lemma_backpressure_starts_one_worker(run: Run)
    requires
        run.wf(),
        run.phase == Phase::Offering,
        run.max_clients is None,
        run.clients < u32::MAX,
    ensures
        run.next(Event::Full).clients == run.clients + 1,
        run.next(Event::Full).action() == (Action::Spawn { client: (run.clients + 1) as u32 }),
        run.next(Event::Full).next(Event::Done).action() == Action::Send,
        run.next(Event::Full).next(Event::Done).clients == run.clients + 1,
{
}

/// With a maximum, a full channel starts a worker only below the maximum;
/// at or above it the input is sent to the workers there are.
pub proof fn lemma_backpressure_respects_maximum(run: Run, max: nat)
    requires
        run.wf(),
        run.phase == Phase::Offering,
        run.max_clients == Some(max),
    ensures
        run.clients < max ==> run.next(Event::Full).clients == run.clients + 1,
        run.clients >= max ==> run.next(Event::Full).clients == run.clients,
        run.clients >= max ==> run.next(Event::Full).action() == Action::Send,
{
}

/// Over any sequence of events the number of workers and the number of
/// admitted inputs never decrease.
pub proof fn lemma_counters_never_decrease(run: Run, events: Seq<Event>)
    requires
        run.wf(),
    ensures
        run.clients <= run.after(events).clients,
        run.admitted <= run.after(events).admitted,
        run.joined <= run.after(events).joined,
    decreases events.len(),
{
    if events.len() > 0 {
        lemma_counters_never_decrease(run, events.drop_last());
        lemma_after_keeps_wf(run, events.drop_last());
    }
}

/// The pool never outgrows the larger of the initial size and the cap, and
/// no more inputs are admitted than were asked for.
pub proof fn lemma_counters_bounded(
    rate: nat,
    initial_clients: nat,
    total: nat,
    max_clients: Option<nat>,
    events: Seq<Event>,
)
    requires
        Run::initial(rate, initial_clients, total, max_clients).wf(),
    ensures
        ({
            let end = Run::initial(rate, initial_clients, total, max_clients).after(events);
            &&& end.admitted <= total
            &&& end.clients <= initial_clients || end.clients <= end.cap()
            &&& max_clients matches Some(max) ==> end.clients <= initial_clients || end.clients
                <= max
        }),
{
    lemma_after_keeps_wf(Run::initial(rate, initial_clients, total, max_clients), events);
}

/// As long as the channel is never full, the pool stays at its initial size:
/// it never exceeds it, and it has reached it once the first input is pulled.
/// Where the initial size is within the maximum, so is the pool.
pub proof fn lemma_no_backpressure_no_growth(
    rate: nat,
    initial_clients: nat,
    total: nat,
    max_clients: Option<nat>,
    events: Seq<Event>,
)
    requires
        Run::initial(rate, initial_clients, total, max_clients).wf(),
        forall|i: int| 0 <= i < events.len() ==> events[i] != Event::Full,
    ensures
        ({
            let end = Run::initial(rate, initial_clients, total, max_clients).after(events);
            &&& end.clients <= initial_clients
            &&& end.phase != Phase::Starting ==> end.clients == initial_clients
            &&& end.phase != Phase::Growing
            &&& max_clients matches Some(max) ==> initial_clients <= max ==> end.clients <= max
        }),
    decreases events.len(),
{
    let start = Run::initial(rate, initial_clients, total, max_clients);
    if events.len() > 0 {
        lemma_no_backpressure_no_growth(
            rate,
            initial_clients,
            total,
            max_clients,
            events.drop_last(),
        );
        lemma_after_keeps_wf(start, events.drop_last());
        assert(events.last() == events[events.len() - 1]);
    }
}

/// Admission stops for a cause: if the input generator never runs out and
/// the channel is never closed, a run that has stopped admitting has
/// admitted exactly as many inputs as were asked for.
pub proof fn lemma_stops_at_total(
    rate: nat,
    initial_clients: nat,
    total: nat,
    max_clients: Option<nat>,
    events: Seq<Event>,
)
    requires
        Run::initial(rate, initial_clients, total, max_clients).wf(),
        forall|i: int|
            0 <= i < events.len() ==> events[i] != Event::Exhausted && events[i] != Event::Closed,
    ensures
        ({
            let end = Run::initial(rate, initial_clients, total, max_clients).after(events);
            &&& end.stop is Some ==> end.stop == Some(StopReason::TotalReached)
            &&& end.stop is Some ==> end.admitted == total
        }),
    decreases events.len(),
{
    let start = Run::initial(rate, initial_clients, total, max_clients);
    if events.len() > 0 {
        lemma_stops_at_total(rate, initial_clients, total, max_clients, events.drop_last());
        lemma_after_keeps_wf(start, events.drop_last());
        lemma_after_keeps_wf(start, events);
        assert(events.last() == events[events.len() - 1]);
    }
}

/// When the input generator runs out, the run stops admitting at once,
/// however many inputs were asked for.
pub proof fn lemma_exhaustion_stops_admission(run: Run)
    requires
        run.wf(),
        run.phase == Phase::Pulling,
    ensures
        run.next(Event::Exhausted).action() == Action::Close,
        run.next(Event::Exhausted).stop == Some(StopReason::InputExhausted),
        run.next(Event::Exhausted).admitted == run.admitted,
{
}

/// Once admission has stopped, no event admits another input or starts
/// another worker, and the input generator is not asked again: all that is
/// left is to close, to await the workers and to finish.
pub proof fn lemma_stopped_run_stays_stopped(run: Run, events: Seq<Event>)
    requires
        run.wf(),
        run.stop is Some,
    ensures
        run.after(events).stop == run.stop,
        run.after(events).admitted == run.admitted,
        run.after(events).clients == run.clients,
        run.after(events).action() is Close || run.after(events).action() is Join || run.after(
            events,
        ).action() is Finish,
    decreases events.len(),
{
    if events.len() > 0 {
        lemma_stopped_run_stays_stopped(run, events.drop_last());
        lemma_after_keeps_wf(run, events.drop_last());
    }
}

/// The channel and the input generator are closed once: after the close has
/// been carried out no event leads back to it, and a finished run stays
/// finished.
pub proof fn lemma_closes_once(run: Run, events: Seq<Event>)
    requires
        run.wf(),
        run.phase == Phase::Joining || run.phase == Phase::Finished,
    ensures
        run.after(events).phase == Phase::Joining || run.after(events).phase == Phase::Finished,
        run.phase == Phase::Finished ==> run.after(events) == run,
    decreases events.len(),
{
    if events.len() > 0 {
        lemma_closes_once(run, events.drop_last());
        lemma_after_keeps_wf(run, events.drop_last());
    }
}

/// A worker that ended abnormally is counted and passed over: the next
/// worker is awaited, or the run finishes, exactly as after a sound one.
pub proof fn lemma_failed_worker_is_not_fatal(run: Run)
    requires
        run.wf(),
        run.phase == Phase::Joining,
    ensures
        run.next(Event::Failed).action() == run.next(Event::Done).action(),
        run.next(Event::Failed).joined == run.joined + 1,
        run.next(Event::Failed).failed == run.failed + 1,
        run.next(Event::Done).failed == run.failed,
{
}

/// The generator of one run: the configuration, and how far the run has come.
#[derive(Debug, Clone, Copy)]
pub struct LoadGenerator {
    rate: u64,
    total: u64,
    initial_clients: u32,
    max_clients: Option<u32>,
    phase: Phase,
    clients: u32,
    admitted: u64,
    joined: u32,
    failed: u32,
    stop: Option<StopReason>,
}

impl View for LoadGenerator {
    type V = Run;

    closed spec fn view(&self) -> Run {
        Run {
            rate: self.rate as nat,
            total: self.total as nat,
            initial_clients: self.initial_clients as nat,
            max_clients: match self.max_clients {
                Some(max) => Some(max as nat),
                None => None,
            },
            phase: self.phase,
            clients: self.clients as nat,
            admitted: self.admitted as nat,
            joined: self.joined as nat,
            failed: self.failed as nat,
            stop: self.stop,
        }
    }
}

impl LoadGenerator {
    #[verifier::type_invariant]
    spec fn well_formed(self) -> bool {
        self@.wf()
    }

    /// Sets up a run at `rate` requests per second that admits at most
    /// `total` inputs, starts `initial_clients` workers at once and lets
    /// backpressure start more while there are fewer than `max_clients`.
    /// A rate or a total of zero is refused, the rate first.
    pub fn new(rate: u64, initial_clients: u64, total: u64, max_clients: Option<u32>) -> (made:
        Result<LoadGenerator, ConfigError>)
        requires
            initial_clients <= u32::MAX,
        ensures
            rate == 0 <==> made == Err::<LoadGenerator, ConfigError>(ConfigError::ZeroRate),
            rate > 0 && total == 0 <==> made == Err::<LoadGenerator, ConfigError>(
                ConfigError::ZeroTotal,
            ),
            rate > 0 && total > 0 <==> made is Ok,
            made matches Ok(generator) ==> generator@ == Run::initial(
                rate as nat,
                initial_clients as nat,
                total as nat,
                match max_clients {
                    Some(max) => Some(max as nat),
                    None => None,
                },
            ),
    {
        if rate == 0 {
            return Err(ConfigError::ZeroRate);
        }
        if total == 0 {
            return Err(ConfigError::ZeroTotal);
        }
        Ok(
            LoadGenerator {
                rate,
                total,
                initial_clients: initial_clients as u32,
                max_clients,
                phase: if initial_clients > 0 {
                    Phase::Starting
                } else {
                    Phase::Pulling
                },
                clients: if initial_clients > 0 {
                    1
                } else {
                    0
                },
                admitted: 0,
                joined: 0,
                failed: 0,
                stop: None,
            },
        )
    }

    /// The action that the generator is waiting for.
    pub fn action(&self) -> (action: Action)
        ensures
            action == self@.action(),
    {
        proof {
            use_type_invariant(self);
        }
        match self.phase {
            Phase::Starting | Phase::Growing => Action::Spawn { client: self.clients },
            Phase::Pulling => Action::Pull,
            Phase::Offering => Action::Offer,
            Phase::Sending => Action::Send,
            Phase::Ticking => Action::Tick,
            Phase::Closing => Action::Close,
            Phase::Joining => Action::Join { client: self.joined + 1 },
            Phase::Finished => Action::Finish { clients: self.clients },
        }
    }

    /// Takes the answer to the pending action and names the next action. An
    /// event that does not answer the pending action changes nothing, and the
    /// same action is named again.
    pub fn step(&mut self, event: Event) -> (action: Action)
        ensures
            final(self)@ == old(self)@.next(event),
            action == final(self)@.action(),
    {
        proof {
            use_type_invariant(&*self);
            lemma_next_keeps_wf(self@, event);
        }
        let now = *self;
        let next = match (now.phase, event) {
            (Phase::Starting, Event::Done) => if now.clients < now.initial_clients {
                LoadGenerator { clients: now.clients + 1, ..now }
            } else {
                LoadGenerator { phase: Phase::Pulling, ..now }
            },
            (Phase::Pulling, Event::Input) => LoadGenerator { phase: Phase::Offering, ..now },
            (Phase::Pulling, Event::Exhausted) => now.stopped(StopReason::InputExhausted),
            (Phase::Offering, Event::Accepted) | (Phase::Sending, Event::Accepted) => LoadGenerator {
                phase: Phase::Ticking,
                admitted: now.admitted + 1,
                ..now
            },
            (Phase::Offering, Event::Full) => if now.can_grow() {
                LoadGenerator { phase: Phase::Growing, clients: now.clients + 1, ..now }
            } else {
                LoadGenerator { phase: Phase::Sending, ..now }
            },
            (Phase::Offering, Event::Closed) | (Phase::Sending, Event::Closed) => now.stopped(
                StopReason::ChannelClosed,
            ),
            (Phase::Growing, Event::Done) => LoadGenerator { phase: Phase::Sending, ..now },
            (Phase::Ticking, Event::Done) => if now.admitted == now.total {
                now.stopped(StopReason::TotalReached)
            } else {
                LoadGenerator { phase: Phase::Pulling, ..now }
            },
            (Phase::Closing, Event::Done) => if now.clients == 0 {
                LoadGenerator { phase: Phase::Finished, ..now }
            } else {
                LoadGenerator { phase: Phase::Joining, ..now }
            },
            (Phase::Joining, Event::Done) => now.joined_one(false),
            (Phase::Joining, Event::Failed) => now.joined_one(true),
            _ => now,
        };
        *self = next;
        self.action()
    }

    /// The period of the tick in nanoseconds: a second divided by the rate,
    /// rounded down.
    pub fn interval_nanos(&self) -> (nanos: u64)
        ensures
            nanos == self@.interval_nanos(),
    {
        proof {
            use_type_invariant(self);
        }
        NANOS_PER_SECOND / self.rate
    }

    /// Where the run stands.
    pub fn phase(&self) -> (phase: Phase)
        ensures
            phase == self@.phase,
    {
        self.phase
    }

    /// Whether nothing is left to do.
    pub fn is_finished(&self) -> (finished: bool)
        ensures
            finished == (self@.phase == Phase::Finished),
    {
        match self.phase {
            Phase::Finished => true,
            _ => false,
        }
    }

    /// How many workers have been started.
    pub fn clients(&self) -> (clients: u32)
        ensures
            clients == self@.clients,
    {
        self.clients
    }

    /// How many inputs the channel has taken.
    pub fn admitted(&self) -> (admitted: u64)
        ensures
            admitted == self@.admitted,
    {
        self.admitted
    }

    /// How many of the awaited workers had ended abnormally.
    pub fn failed_clients(&self) -> (failed: u32)
        ensures
            failed == self@.failed,
    {
        self.failed
    }

    /// Why admission stopped, once it has.
    pub fn stop_reason(&self) -> (stop: Option<StopReason>)
        ensures
            stop == self@.stop,
    {
        self.stop
    }

    /// Whether backpressure may start one more worker: the pool is below
    /// the configured maximum, or below the number of worker ids if there is
    /// no maximum.
    pub fn can_grow(&self) -> (grows: bool)
        ensures
            grows == self@.can_grow(),
    {
        match self.max_clients {
            Some(max) => self.clients < max,
            None => self.clients < u32::MAX,
        }
    }

    /// This generator with admission stopped for `reason`.
    fn stopped(self, reason: StopReason) -> (next: LoadGenerator)
        requires
            self@.stopped(reason).wf(),
        ensures
            next@ == self@.stopped(reason),
    {
        LoadGenerator { phase: Phase::Closing, stop: Some(reason), ..self }
    }

    /// This generator after one more worker has been awaited.
    fn joined_one(self, failed: bool) -> (next: LoadGenerator)
        requires
            self@.phase == Phase::Joining,
        ensures
            next@ == self@.joined_one(failed),
    {
        proof {
            use_type_invariant(&self);
        }
        LoadGenerator {
            phase: if self.joined + 1 < self.clients {
                Phase::Joining
            } else {
                Phase::Finished
            },
            joined: self.joined + 1,
            failed: if failed {
                self.failed + 1
            } else {
                self.failed
            },
            ..self
        }
    }
}

} // verus!
