use loadbench::client::ClientRunner;
use loadbench::client::Dispatcher;
use loadbench::Output;

struct Parity;

impl Dispatcher for Parity {
    type Input = u32;
    type Output = String;

    fn execute(&mut self, request: u32) -> Result<String, String> {
        if request % 2 == 0 {
            Ok(format!("even {request}"))
        } else {
            Err(format!("odd {request}"))
        }
    }
}

#[test]
fn a_new_runner_has_served_nothing() {
    let runner: ClientRunner<u8> = ClientRunner::new(12);
    assert_eq!(runner.client(), 12);
    assert_eq!(runner.iteration(), 0);
    assert!(runner.has_room());
    assert!(runner.finish().is_empty());
}

#[test]
fn begin_at_opens_the_output_of_the_next_input() {
    let runner: ClientRunner<u8> = ClientRunner::new(12);
    let opened = runner.begin_at(77);
    assert_eq!(opened.core.client, 12);
    assert_eq!(opened.core.iteration, 0);
    assert_eq!(opened.core.start_ns, 77);
    assert_eq!(opened.core.end_ns, 77);
    assert_eq!(opened.core.error, None);
    assert_eq!(opened.custom, 0);
}

#[test]
fn begin_reads_the_clock() {
    let runner: ClientRunner<u8> = ClientRunner::new(3);
    let opened = runner.begin();
    assert!(opened.core.start_ns > 1_577_836_800_000_000_000);
    assert_eq!(opened.core.end_ns, opened.core.start_ns);
    assert_eq!(opened.core.client, 3);
}

#[test]
fn complete_at_records_a_payload() {
    let mut runner: ClientRunner<u8> = ClientRunner::new(2);
    let opened = runner.begin_at(100);
    runner.complete_at(opened, Ok(9), 160);
    assert_eq!(runner.iteration(), 1);
    let outputs = runner.finish();
    assert_eq!(outputs.len(), 1);
    assert_eq!(outputs[0].core.start_ns, 100);
    assert_eq!(outputs[0].core.end_ns, 160);
    assert_eq!(outputs[0].core.error, None);
    assert_eq!(outputs[0].core.client, 2);
    assert_eq!(outputs[0].core.iteration, 0);
    assert_eq!(outputs[0].custom, 9);
}

#[test]
fn complete_at_records_a_failure_and_keeps_the_default_payload() {
    let mut runner: ClientRunner<u8> = ClientRunner::new(2);
    let opened = runner.begin_at(100);
    runner.complete_at(opened, Err("no route".to_string()), 130);
    let outputs = runner.finish();
    assert_eq!(outputs.len(), 1);
    assert!(outputs[0].is_error());
    assert_eq!(outputs[0].core.error, Some("no route".to_string()));
    assert_eq!(outputs[0].core.start_ns, 100);
    assert_eq!(outputs[0].core.end_ns, 130);
    assert_eq!(outputs[0].custom, 0);
}

#[test]
fn complete_reads_the_clock() {
    let mut runner: ClientRunner<u8> = ClientRunner::new(2);
    let opened = runner.begin_at(5);
    runner.complete(opened, Ok(1));
    let outputs = runner.finish();
    assert_eq!(outputs[0].core.start_ns, 5);
    assert!(outputs[0].core.end_ns > 1_577_836_800_000_000_000);
}

#[test]
fn dispatch_leaves_one_numbered_output_for_each_input() {
    let mut runner: ClientRunner<String> = ClientRunner::new(5);
    let mut dispatcher = Parity;
    for request in 0..6 {
        runner.dispatch(&mut dispatcher, request);
    }
    assert_eq!(runner.iteration(), 6);
    let outputs = runner.finish();
    assert_eq!(outputs.len(), 6);
    for (i, output) in outputs.iter().enumerate() {
        assert_eq!(output.core.client, 5);
        assert_eq!(output.core.iteration as usize, i);
        assert!(output.core.end_ns >= output.core.start_ns);
        if i % 2 == 0 {
            assert!(!output.is_error());
            assert_eq!(output.custom, format!("even {i}"));
        } else {
            assert!(output.is_error());
            assert_eq!(output.core.error, Some(format!("odd {i}")));
            assert_eq!(output.custom, String::new());
        }
    }
}

#[test]
fn a_scenario_may_leave_any_number_of_outputs() {
    let mut runner: ClientRunner<u8> = ClientRunner::new(1);
    let mut first: Output<u8> = Output::start_at(1, 0, 10);
    first.stop_at(20);
    let mut second: Output<u8> = Output::start_at(1, 0, 20);
    second.stop_at(35);
    runner.complete_scenario(vec![first, second]);
    runner.complete_scenario(Vec::new());
    let mut third: Output<u8> = Output::start_at(1, 2, 40);
    third.error_at("lost".to_string(), 41);
    runner.complete_scenario(vec![third]);
    assert_eq!(runner.iteration(), 3);
    let outputs = runner.finish();
    assert_eq!(outputs.len(), 3);
    assert_eq!(outputs[0].core.end_ns, 20);
    assert_eq!(outputs[1].core.end_ns, 35);
    assert!(outputs[2].is_error());
}
