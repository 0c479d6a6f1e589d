use ethers::abi::{Abi, Address};
use ethers::types::{Bytes, U256};
use suite_runner::builder::TestSuiteBuilder;
use suite_runner::event::{Payload, RunEvent};
use suite_runner::span::Span;
use suite_runner::suite::{TestSuite, WorkerState};
use suite_runner::watchdog::Phase;

type Suite = TestSuite<Vec<u8>, u32, u8, String>;

fn suite(id: &str, timeout: Span) -> Suite {
    let mut contract = Abi::default();
    contract.receive = true;
    TestSuiteBuilder::new()
        .id(String::from(id))
        .executor(vec![1u8, 2, 3])
        .contract(contract)
        .deploy_code(Bytes::from(vec![0xfeu8, 0xed]))
        .libs(vec![Bytes::from(vec![9u8]), Bytes::from(vec![8u8, 7])])
        .test_options(64)
        .timeout(timeout)
        .initial_balance(U256::from(5u64))
        .sender(Some(Address::repeat_byte(1)))
        .known_contracts(0)
        .build(String::from("test"))
        .unwrap()
}

#[test]
fn run_gives_an_idle_watchdog_with_the_id_and_timeout() {
    let (watchdog, _worker) = suite("S1", Span::from_secs(4)).run();
    assert_eq!(watchdog.id, "S1");
    assert_eq!(watchdog.timeout, Span::from_secs(4));
    assert_eq!(watchdog.phase, Phase::Idle);
    assert_eq!(watchdog.warnings, 0);
}

#[test]
fn run_gives_a_running_worker_with_the_suite() {
    let (_watchdog, worker) = suite("S1", Span::from_secs(4)).run();
    assert_eq!(worker.state, WorkerState::Running);
    assert_eq!(worker.suite.id, "S1");
    assert_eq!(worker.suite.executor, vec![1u8, 2, 3]);
    assert_eq!(worker.suite.deploy_code, Bytes::from(vec![0xfeu8, 0xed]));
    assert_eq!(worker.suite.filter, "test");
    assert_eq!(worker.suite.test_options, 64);
    assert_eq!(worker.suite.timeout, Span::from_secs(4));
    assert_eq!(worker.suite.known_contracts, 0);
    assert!(!worker.suite.complete);
}

#[test]
fn runner_is_wired_to_the_fields_of_the_suite() {
    let s = suite("S1", Span::from_secs(1));
    let r = s.runner();
    assert_eq!(r.executor, vec![1u8, 2, 3]);
    assert_eq!(r.contract, &s.contract);
    assert!(r.contract.receive);
    assert_eq!(r.code, Bytes::from(vec![0xfeu8, 0xed]));
    assert_eq!(r.initial_balance, U256::from(5u64));
    assert_eq!(r.sender, Some(Address::repeat_byte(1)));
    assert_eq!(r.errors, None);
    assert_eq!(r.predeploy_libs, &[Bytes::from(vec![9u8]), Bytes::from(vec![8u8, 7])][..]);
}

#[test]
fn runner_hands_on_the_table_of_errors() {
    let mut s = suite("S1", Span::from_secs(1));
    let mut table = Abi::default();
    table.fallback = true;
    s.errors = Some(table.clone());
    s.sender = None;
    let r = s.runner();
    assert_eq!(r.errors, Some(&table));
    assert_eq!(r.sender, None);
}

#[test]
fn runner_leaves_the_suite_its_own_environment_and_code() {
    let s = suite("S1", Span::from_secs(1));
    let mut r = s.runner();
    r.executor.push(4);
    r.code = Bytes::from(vec![0u8]);
    assert_eq!(s.executor, vec![1u8, 2, 3]);
    assert_eq!(s.deploy_code, Bytes::from(vec![0xfeu8, 0xed]));
    let again = s.runner();
    assert_eq!(again.executor, vec![1u8, 2, 3]);
    assert_eq!(again.code, Bytes::from(vec![0xfeu8, 0xed]));
}

#[test]
fn finish_with_a_result_reports_success() {
    let (_watchdog, mut worker) = suite("S1", Span::from_secs(1)).run();
    let event: Option<RunEvent<u32, String>> = worker.finish(Ok(17));
    assert_eq!(event, Some(RunEvent::Success(Payload { id: String::from("S1"), body: 17 })));
    assert_eq!(worker.state, WorkerState::Succeeded);
    assert!(worker.suite.complete);
}

#[test]
fn finish_with_a_report_reports_the_error() {
    let (_watchdog, mut worker) = suite("S2", Span::from_secs(1)).run();
    let event: Option<RunEvent<u32, String>> = worker.finish(Err(String::from("E")));
    assert_eq!(
        event,
        Some(RunEvent::Error(Payload { id: String::from("S2"), body: String::from("E") }))
    );
    assert_eq!(worker.state, WorkerState::Failed);
    assert!(worker.suite.complete);
}

#[test]
fn finish_leaves_the_rest_of_the_suite_as_it_was() {
    let (_watchdog, mut worker) = suite("S1", Span::from_secs(6)).run();
    let _: Option<RunEvent<u32, String>> = worker.finish(Ok(1));
    assert_eq!(worker.suite.id, "S1");
    assert_eq!(worker.suite.timeout, Span::from_secs(6));
    assert_eq!(worker.suite.executor, vec![1u8, 2, 3]);
    assert_eq!(worker.suite.libs.len(), 2);
}

#[test]
fn a_suite_has_one_terminal_event_whatever_the_outcome() {
    let (_watchdog, mut worker) = suite("S1", Span::from_secs(1)).run();
    let first: Option<RunEvent<u32, String>> = worker.finish(Ok(1));
    assert!(first.is_some());
    let second: Option<RunEvent<u32, String>> = worker.finish(Ok(2));
    assert_eq!(second, None);
    let third: Option<RunEvent<u32, String>> = worker.finish(Err(String::from("late")));
    assert_eq!(third, None);
    assert_eq!(worker.state, WorkerState::Succeeded);
    assert!(worker.suite.complete);

    let (_watchdog, mut worker) = suite("S2", Span::from_secs(1)).run();
    let first: Option<RunEvent<u32, String>> = worker.finish(Err(String::from("E")));
    assert!(first.is_some());
    let second: Option<RunEvent<u32, String>> = worker.finish(Ok(2));
    assert_eq!(second, None);
    assert_eq!(worker.state, WorkerState::Failed);
}
