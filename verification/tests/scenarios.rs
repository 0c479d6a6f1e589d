use ethers::abi::Abi;
use ethers::types::{Bytes, U256};
use suite_runner::builder::TestSuiteBuilder;
use suite_runner::event::{Payload, RunEvent};
use suite_runner::span::Span;
use suite_runner::suite::{TestSuite, Worker};
use suite_runner::watchdog::{Phase, Watchdog};

type Event = RunEvent<&'static str, &'static str>;

fn suite(id: &str, timeout: Span) -> TestSuite<u8, u8, u8, u8> {
    TestSuiteBuilder::new()
        .id(String::from(id))
        .executor(0)
        .contract(Abi::default())
        .deploy_code(Bytes::from(vec![1u8]))
        .test_options(0)
        .timeout(timeout)
        .initial_balance(U256::zero())
        .known_contracts(0)
        .build(0)
        .unwrap()
}

fn slow(id: &str, secs: u64) -> Event {
    RunEvent::Slow(Payload { id: String::from(id), body: Span::from_secs(secs) })
}

/// One wake of `watchdog`, which looks at `flag`; what it sends goes to `channel`.
fn wake(watchdog: &mut Watchdog, flag: bool, channel: &mut Vec<Event>) {
    if let Some(warning) = watchdog.on_wake(flag) {
        channel.push(RunEvent::Slow(warning));
    }
}

/// The end of the execution of `worker`; what it sends goes to `channel`.
fn report(
    worker: &mut Worker<u8, u8, u8, u8>,
    outcome: Result<&'static str, &'static str>,
    channel: &mut Vec<Event>,
) {
    if let Some(event) = worker.finish(outcome) {
        channel.push(event);
    }
}

/// Runs the suite on a clock: the watchdog wakes at every multiple of the
/// timeout, the execution ends after `duration`, and the worker raises the
/// flag together with its report.
fn on_the_clock(
    id: &str,
    timeout: Span,
    duration: Span,
    outcome: Result<&'static str, &'static str>,
) -> Vec<Event> {
    let (mut watchdog, mut worker) = suite(id, timeout).run();
    let mut channel = Vec::new();
    let nap: u128 = watchdog.start().as_nanos();
    let mut now: u128 = nap;
    while now < duration.as_nanos() {
        wake(&mut watchdog, worker.suite.complete, &mut channel);
        now += nap;
    }
    report(&mut worker, outcome, &mut channel);
    wake(&mut watchdog, worker.suite.complete, &mut channel);
    assert_eq!(watchdog.phase, Phase::Done);
    channel
}

#[test]
fn a_slow_success_is_warned_about_twice_and_then_reported() {
    let seen = on_the_clock("S1", Span::from_secs(1), Span::new(2, 500_000_000).unwrap(), Ok("R"));
    assert_eq!(
        seen,
        vec![
            slow("S1", 1),
            slow("S1", 2),
            RunEvent::Success(Payload { id: String::from("S1"), body: "R" }),
        ]
    );
}

#[test]
fn a_quick_failure_is_reported_without_a_warning() {
    let seen = on_the_clock("S2", Span::from_secs(5), Span::from_secs(1), Err("E"));
    assert_eq!(seen, vec![RunEvent::Error(Payload { id: String::from("S2"), body: "E" })]);
}

#[test]
fn an_execution_is_warned_about_once_for_each_timeout_it_outlasts() {
    let timeout = Span::new(0, 300_000_000).unwrap();
    let duration = Span::new(2, 0).unwrap();
    let seen = on_the_clock("S1", timeout, duration, Ok("R"));
    let wakes: usize = (duration.as_nanos() / timeout.as_nanos()) as usize;
    assert_eq!(wakes, 6);
    assert_eq!(seen.len(), wakes + 1);
    let mut k: usize = 0;
    while k < wakes {
        match &seen[k] {
            RunEvent::Slow(p) => {
                assert_eq!(p.id, "S1");
                assert_eq!(p.body.as_nanos(), (k as u128 + 1) * timeout.as_nanos());
            }
            _ => panic!("a terminal event among the warnings"),
        }
        k += 1;
    }
    assert!(seen[wakes].is_terminal());
}

#[test]
fn an_execution_of_exactly_one_timeout_may_go_unwarned() {
    let seen = on_the_clock("S1", Span::from_secs(2), Span::from_secs(2), Ok("R"));
    assert_eq!(seen, vec![RunEvent::Success(Payload { id: String::from("S1"), body: "R" })]);
}

#[test]
fn no_warning_follows_the_terminal_event_when_report_and_flag_go_together() {
    let (mut watchdog, mut worker) = suite("S1", Span::from_secs(1)).run();
    let mut channel = Vec::new();
    watchdog.start();
    wake(&mut watchdog, worker.suite.complete, &mut channel);
    report(&mut worker, Ok("R"), &mut channel);
    wake(&mut watchdog, worker.suite.complete, &mut channel);
    wake(&mut watchdog, worker.suite.complete, &mut channel);
    assert_eq!(
        channel,
        vec![slow("S1", 1), RunEvent::Success(Payload { id: String::from("S1"), body: "R" })]
    );
    assert!(channel.last().unwrap().is_terminal());
}

#[test]
fn a_wake_between_report_and_flag_warns_after_the_terminal_event() {
    let (mut watchdog, mut worker) = suite("S1", Span::from_secs(1)).run();
    let mut channel = Vec::new();
    watchdog.start();
    let flag = worker.suite.complete;
    report(&mut worker, Ok("R"), &mut channel);
    wake(&mut watchdog, flag, &mut channel);
    let flag = worker.suite.complete;
    wake(&mut watchdog, flag, &mut channel);
    assert_eq!(
        channel,
        vec![RunEvent::Success(Payload { id: String::from("S1"), body: "R" }), slow("S1", 1)]
    );
    assert_eq!(watchdog.phase, Phase::Done);
}

#[test]
fn the_events_of_two_suites_on_one_channel_never_mix() {
    let (mut dog_a, mut worker_a) = suite("A", Span::from_secs(1)).run();
    let (mut dog_b, mut worker_b) = suite("B", Span::from_secs(3)).run();
    let mut channel = Vec::new();
    dog_a.start();
    dog_b.start();
    wake(&mut dog_a, worker_a.suite.complete, &mut channel);
    wake(&mut dog_a, worker_a.suite.complete, &mut channel);
    wake(&mut dog_b, worker_b.suite.complete, &mut channel);
    wake(&mut dog_a, worker_a.suite.complete, &mut channel);
    report(&mut worker_a, Err("E"), &mut channel);
    wake(&mut dog_a, worker_a.suite.complete, &mut channel);
    wake(&mut dog_b, worker_b.suite.complete, &mut channel);
    report(&mut worker_b, Ok("R"), &mut channel);
    wake(&mut dog_b, worker_b.suite.complete, &mut channel);

    assert_eq!(channel.len(), 7);
    let mut of_a = Vec::new();
    let mut of_b = Vec::new();
    for event in channel {
        if event.id() == "A" {
            of_a.push(event);
        } else {
            assert_eq!(event.id(), "B");
            of_b.push(event);
        }
    }
    assert_eq!(
        of_a,
        vec![
            slow("A", 1),
            slow("A", 2),
            slow("A", 3),
            RunEvent::Error(Payload { id: String::from("A"), body: "E" }),
        ]
    );
    assert_eq!(
        of_b,
        vec![
            slow("B", 3),
            slow("B", 6),
            RunEvent::Success(Payload { id: String::from("B"), body: "R" }),
        ]
    );
}
