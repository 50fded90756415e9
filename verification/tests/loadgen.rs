use loadbench::client::ClientRunner;
use loadbench::client::Dispatcher;
use loadbench::client::DispatcherGenerator;
use loadbench::input::InputGenerator;
use loadbench::loadgen::Action;
use loadbench::loadgen::ConfigError;
use loadbench::loadgen::Event;
use loadbench::loadgen::LoadGenerator;
use loadbench::loadgen::Phase;
use loadbench::loadgen::StopReason;
use loadbench::loadgen::CHANNEL_CAPACITY;
use loadbench::loadgen::NANOS_PER_SECOND;
use loadbench::output_sink::OutputSink;
use loadbench::output_sink::StatsOutputSink;

/// Yields the numbers `0..limit`, then nothing.
struct Counting {
    next: u64,
    limit: u64,
}

impl InputGenerator for Counting {
    type Input = u64;

    fn next(&mut self) -> Option<u64> {
        if self.next < self.limit {
            self.next += 1;
            Some(self.next - 1)
        } else {
            None
        }
    }

    fn close(self) {}
}

/// Doubles its input, or fails on every input.
struct Doubling {
    failing: bool,
}

impl Dispatcher for Doubling {
    type Input = u64;
    type Output = u64;

    fn execute(&mut self, request: u64) -> Result<u64, String> {
        if self.failing {
            Err(format!("cannot serve {request}"))
        } else {
            Ok(request * 2)
        }
    }
}

struct Doublers {
    failing: bool,
    made: u32,
}

impl DispatcherGenerator for Doublers {
    type Dispatcher = Doubling;

    fn generate(&mut self) -> Doubling {
        self.made += 1;
        Doubling { failing: self.failing }
    }
}

/// A single-threaded stand-in for the channel and the worker tasks. The
/// channel has one slot. Eager workers empty the slot as soon as an input
/// lies in it; lazy ones only when the generator waits for room or closes.
struct World {
    inputs: Option<Counting>,
    dispatchers: Doublers,
    eager: bool,
    close_before_offer: Option<u64>,
    failing_worker: Option<u32>,
    pending: Option<u64>,
    slot: Option<u64>,
    offers: u64,
    turn: usize,
    workers: Vec<(ClientRunner<u64>, Doubling)>,
    sink: StatsOutputSink,
    sizes: Vec<u32>,
    actions: Vec<Action>,
}

impl World {
    fn new(limit: u64, eager: bool, failing: bool) -> World {
        World {
            inputs: Some(Counting { next: 0, limit }),
            dispatchers: Doublers { failing, made: 0 },
            eager,
            close_before_offer: None,
            failing_worker: None,
            pending: None,
            slot: None,
            offers: 0,
            turn: 0,
            workers: Vec::new(),
            sink: StatsOutputSink::default(),
            sizes: Vec::new(),
            actions: Vec::new(),
        }
    }

    fn drain(&mut self) {
        if self.workers.is_empty() {
            return;
        }
        if let Some(input) = self.slot.take() {
            let index = self.turn % self.workers.len();
            self.turn += 1;
            let (runner, dispatcher) = &mut self.workers[index];
            assert!(runner.has_room());
            runner.dispatch(dispatcher, input);
        }
    }

    fn perform(&mut self, action: Action) -> Event {
        self.actions.push(action);
        match action {
            Action::Spawn { client } => {
                assert_eq!(client as usize, self.workers.len() + 1);
                let dispatcher = self.dispatchers.generate();
                self.workers.push((ClientRunner::new(client), dispatcher));
                Event::Done
            }
            Action::Pull => match self.inputs.as_mut().unwrap().next() {
                Some(input) => {
                    self.pending = Some(input);
                    Event::Input
                }
                None => Event::Exhausted,
            },
            Action::Offer => {
                if self.close_before_offer == Some(self.offers) {
                    return Event::Closed;
                }
                self.offers += 1;
                if self.eager {
                    self.drain();
                }
                if self.slot.is_none() {
                    self.slot = self.pending.take();
                    Event::Accepted
                } else {
                    Event::Full
                }
            }
            Action::Send => {
                assert!(!self.workers.is_empty(), "nobody will ever make room");
                self.drain();
                self.slot = self.pending.take();
                Event::Accepted
            }
            Action::Tick => Event::Done,
            Action::Close => {
                while self.slot.is_some() && !self.workers.is_empty() {
                    self.drain();
                }
                self.inputs.take().unwrap().close();
                Event::Done
            }
            Action::Join { client } => {
                let (runner, _) = self.workers.remove(0);
                assert_eq!(runner.client(), client);
                if self.failing_worker == Some(client) {
                    return Event::Failed;
                }
                for output in runner.finish() {
                    self.sink.send(output);
                }
                Event::Done
            }
            Action::Finish { .. } => unreachable!(),
        }
    }

    fn run(&mut self, generator: &mut LoadGenerator) -> u32 {
        let mut action = generator.action();
        loop {
            if let Action::Finish { clients } = action {
                self.actions.push(action);
                return clients;
            }
            let event = self.perform(action);
            action = generator.step(event);
            self.sizes.push(generator.clients());
        }
    }
}

#[test]
fn a_rate_of_zero_is_refused_first() {
    assert_eq!(LoadGenerator::new(0, 0, 10, None).err(), Some(ConfigError::ZeroRate));
    assert_eq!(LoadGenerator::new(0, 4, 0, Some(2)).err(), Some(ConfigError::ZeroRate));
}

#[test]
fn a_total_of_zero_is_refused() {
    assert_eq!(LoadGenerator::new(5, 0, 0, None).err(), Some(ConfigError::ZeroTotal));
}

#[test]
fn a_sound_configuration_is_taken() {
    let generator = LoadGenerator::new(100, 0, 1000, None).unwrap();
    assert_eq!(generator.phase(), Phase::Pulling);
    assert_eq!(generator.action(), Action::Pull);
    assert_eq!(generator.clients(), 0);
    assert_eq!(generator.admitted(), 0);
    assert_eq!(generator.failed_clients(), 0);
    assert_eq!(generator.stop_reason(), None);
    assert!(!generator.is_finished());

    let staffed = LoadGenerator::new(100, 3, 1000, Some(1)).unwrap();
    assert_eq!(staffed.phase(), Phase::Starting);
    assert_eq!(staffed.action(), Action::Spawn { client: 1 });
    assert_eq!(staffed.clients(), 1);
}

#[test]
fn the_tick_period_is_a_second_over_the_rate() {
    assert_eq!(LoadGenerator::new(1, 0, 1, None).unwrap().interval_nanos(), 1_000_000_000);
    assert_eq!(LoadGenerator::new(100, 0, 1, None).unwrap().interval_nanos(), 10_000_000);
    assert_eq!(LoadGenerator::new(3, 0, 1, None).unwrap().interval_nanos(), 333_333_333);
    assert_eq!(LoadGenerator::new(1_000_000_000, 0, 1, None).unwrap().interval_nanos(), 1);
    assert_eq!(LoadGenerator::new(1_000_000_001, 0, 1, None).unwrap().interval_nanos(), 0);
}

#[test]
fn the_actions_of_a_small_run() {
    let mut generator = LoadGenerator::new(10, 1, 2, None).unwrap();
    let mut world = World::new(100, true, false);
    let clients = world.run(&mut generator);
    assert_eq!(clients, 1);
    assert_eq!(
        world.actions,
        vec![
            Action::Spawn { client: 1 },
            Action::Pull,
            Action::Offer,
            Action::Tick,
            Action::Pull,
            Action::Offer,
            Action::Tick,
            Action::Close,
            Action::Join { client: 1 },
            Action::Finish { clients: 1 },
        ]
    );
    assert!(generator.is_finished());
    assert_eq!(generator.phase(), Phase::Finished);
    assert_eq!(generator.stop_reason(), Some(StopReason::TotalReached));
}

#[test]
fn a_full_channel_starts_a_worker_before_the_send() {
    let mut generator = LoadGenerator::new(10, 0, 2, None).unwrap();
    let mut world = World::new(100, false, false);
    let clients = world.run(&mut generator);
    assert_eq!(clients, 1);
    assert_eq!(
        world.actions,
        vec![
            Action::Pull,
            Action::Offer,
            Action::Tick,
            Action::Pull,
            Action::Offer,
            Action::Spawn { client: 1 },
            Action::Send,
            Action::Tick,
            Action::Close,
            Action::Join { client: 1 },
            Action::Finish { clients: 1 },
        ]
    );
    assert_eq!(world.sink.total(), 2);
}

#[test]
fn the_sink_sees_one_output_for_each_of_the_requests() {
    for total in [1u64, 2, 17, 200] {
        let mut generator = LoadGenerator::new(1000, 2, total, None).unwrap();
        let mut world = World::new(u64::MAX, true, false);
        world.run(&mut generator);
        assert_eq!(generator.admitted(), total);
        assert_eq!(world.sink.total(), total);
        assert_eq!(world.sink.success_count(), total);
        assert_eq!(world.sink.error_count(), 0);
    }
}

#[test]
fn a_dispatcher_that_always_fails_leaves_only_errors() {
    let mut generator = LoadGenerator::new(1000, 1, 40, Some(4)).unwrap();
    let mut world = World::new(u64::MAX, false, true);
    world.run(&mut generator);
    assert_eq!(world.sink.total(), 40);
    assert_eq!(world.sink.success_count(), 0);
    assert_eq!(world.sink.error_count(), 40);
}

#[test]
fn an_exhausted_input_generator_ends_the_run_early() {
    let mut generator = LoadGenerator::new(100, 1, 1000, None).unwrap();
    let mut world = World::new(5, true, false);
    world.run(&mut generator);
    assert_eq!(generator.admitted(), 5);
    assert_eq!(generator.stop_reason(), Some(StopReason::InputExhausted));
    assert_eq!(world.sink.total(), 5);
    assert_eq!(world.actions.iter().filter(|action| **action == Action::Pull).count(), 6);
    assert_eq!(world.actions.iter().filter(|action| **action == Action::Tick).count(), 5);
}

#[test]
fn idle_workers_keep_the_pool_at_its_initial_size() {
    for (initial, max) in [(3u64, Some(5u32)), (3, Some(3)), (4, None), (1, Some(2))] {
        let mut generator = LoadGenerator::new(1000, initial, 60, max).unwrap();
        let mut world = World::new(u64::MAX, true, false);
        let clients = world.run(&mut generator);
        let bound = match max {
            Some(max) => (initial as u32).min(max),
            None => initial as u32,
        };
        assert!(world.sizes.iter().all(|size| *size <= bound));
        assert_eq!(clients as u64, initial);
    }
}

#[test]
fn initial_workers_are_started_whatever_the_maximum() {
    let mut generator = LoadGenerator::new(1000, 5, 10, Some(3)).unwrap();
    let mut world = World::new(u64::MAX, false, false);
    let clients = world.run(&mut generator);
    assert_eq!(clients, 5);
    assert_eq!(world.sink.total(), 10);
}

#[test]
fn every_backpressure_event_starts_exactly_one_worker() {
    let mut generator = LoadGenerator::new(1000, 0, 8, None).unwrap();
    let mut world = World::new(u64::MAX, false, false);
    let clients = world.run(&mut generator);
    // The first input finds the slot empty; each of the seven others finds it full.
    assert_eq!(clients, 7);
    let spawned: Vec<u32> = world
        .actions
        .iter()
        .filter_map(|action| match action {
            Action::Spawn { client } => Some(*client),
            _ => None,
        })
        .collect();
    assert_eq!(spawned, vec![1, 2, 3, 4, 5, 6, 7]);
    assert!(world.sizes.windows(2).all(|pair| pair[0] <= pair[1] && pair[1] <= pair[0] + 1));
    assert_eq!(world.sink.total(), 8);
}

#[test]
fn backpressure_stops_growing_the_pool_at_the_maximum() {
    let mut generator = LoadGenerator::new(1000, 0, 20, Some(3)).unwrap();
    let mut world = World::new(u64::MAX, false, false);
    let clients = world.run(&mut generator);
    assert_eq!(clients, 3);
    assert!(world.sizes.iter().all(|size| *size <= 3));
    assert_eq!(world.sink.total(), 20);
}

#[test]
fn a_closed_channel_stops_the_run() {
    let mut generator = LoadGenerator::new(1000, 2, 50, None).unwrap();
    let mut world = World::new(u64::MAX, true, false);
    world.close_before_offer = Some(4);
    let clients = world.run(&mut generator);
    assert_eq!(clients, 2);
    assert_eq!(generator.admitted(), 4);
    assert_eq!(generator.stop_reason(), Some(StopReason::ChannelClosed));
    assert_eq!(world.sink.total(), 4);
}

#[test]
fn a_closed_channel_also_ends_a_waiting_send() {
    let mut generator = LoadGenerator::new(1, 0, 5, Some(0)).unwrap();
    assert_eq!(generator.step(Event::Input), Action::Offer);
    assert_eq!(generator.step(Event::Full), Action::Send);
    assert_eq!(generator.clients(), 0);
    assert_eq!(generator.step(Event::Closed), Action::Close);
    assert_eq!(generator.stop_reason(), Some(StopReason::ChannelClosed));
    assert_eq!(generator.step(Event::Done), Action::Finish { clients: 0 });
    assert!(generator.is_finished());
}

#[test]
fn a_failed_worker_does_not_end_the_run() {
    let mut generator = LoadGenerator::new(1000, 3, 9, None).unwrap();
    let mut world = World::new(u64::MAX, true, false);
    world.failing_worker = Some(2);
    let clients = world.run(&mut generator);
    assert_eq!(clients, 3);
    assert_eq!(generator.failed_clients(), 1);
    assert!(generator.is_finished());
    // Workers take turns, so the failed one had served three of the nine inputs.
    assert_eq!(world.sink.total(), 6);
}

#[test]
fn an_event_that_answers_nothing_is_ignored() {
    let mut generator = LoadGenerator::new(10, 0, 3, None).unwrap();
    for event in [Event::Done, Event::Accepted, Event::Full, Event::Closed, Event::Failed] {
        assert_eq!(generator.step(event), Action::Pull);
        assert_eq!(generator.phase(), Phase::Pulling);
        assert_eq!(generator.admitted(), 0);
    }
    assert_eq!(generator.step(Event::Input), Action::Offer);
    for event in [Event::Done, Event::Input, Event::Exhausted, Event::Failed] {
        assert_eq!(generator.step(event), Action::Offer);
    }
    assert_eq!(generator.step(Event::Accepted), Action::Tick);
    assert_eq!(generator.admitted(), 1);
}

#[test]
fn a_finished_run_stays_finished() {
    let mut generator = LoadGenerator::new(10, 0, 1, None).unwrap();
    generator.step(Event::Exhausted);
    generator.step(Event::Done);
    assert!(generator.is_finished());
    for event in [Event::Done, Event::Input, Event::Accepted, Event::Full] {
        assert_eq!(generator.step(event), Action::Finish { clients: 0 });
        assert_eq!(generator.admitted(), 0);
    }
}

#[test]
fn the_tick_follows_the_last_admitted_input() {
    let mut generator = LoadGenerator::new(10, 0, 1, None).unwrap();
    assert_eq!(generator.step(Event::Input), Action::Offer);
    assert_eq!(generator.step(Event::Accepted), Action::Tick);
    assert_eq!(generator.phase(), Phase::Ticking);
    assert_eq!(generator.step(Event::Done), Action::Close);
    assert_eq!(generator.phase(), Phase::Closing);
    assert_eq!(generator.stop_reason(), Some(StopReason::TotalReached));
}

#[test]
fn the_channel_has_a_single_slot() {
    assert_eq!(CHANNEL_CAPACITY, 1);
    assert_eq!(NANOS_PER_SECOND, 1_000_000_000);
}

#[test]
fn the_pool_may_grow_below_the_maximum_only() {
    let mut capped = LoadGenerator::new(10, 0, 9, Some(1)).unwrap();
    assert!(capped.can_grow());
    assert_eq!(capped.step(Event::Input), Action::Offer);
    assert_eq!(capped.step(Event::Full), Action::Spawn { client: 1 });
    assert!(!capped.can_grow());
    assert_eq!(capped.step(Event::Done), Action::Send);
    assert_eq!(capped.step(Event::Accepted), Action::Tick);
    assert_eq!(capped.step(Event::Done), Action::Pull);
    assert_eq!(capped.step(Event::Input), Action::Offer);
    assert_eq!(capped.step(Event::Full), Action::Send);
    assert_eq!(capped.clients(), 1);

    let closed = LoadGenerator::new(10, 2, 9, Some(0)).unwrap();
    assert!(!closed.can_grow());
    let open = LoadGenerator::new(10, 2, 9, None).unwrap();
    assert!(open.can_grow());
}
