//! A suite that is ready to run, and the two tasks that running it takes.

use crate::chain::clone_code;
use crate::chain::code_of;
use crate::event::RunEvent;
use crate::event::RunEventView;
use crate::span::Span;
use crate::watchdog::Watchdog;
use crate::watchdog::WatchdogView;
use ethers::abi::Abi;
use ethers::abi::Address;
use ethers::types::Bytes;
use ethers::types::U256;
use vstd::prelude::*;

verus! {

/// All that it takes to run the tests of one contract.
///
/// `X` is the execution environment, `O` the options of a run, `K` the
/// table of known contracts and `F` the predicate that picks the tests.
/// The library hands them on and never looks inside.
pub struct TestSuite<X, O, K, F> {
    /// Names the suite in every event about it.
    pub id: String,
    pub executor: X,
    pub contract: Abi,
    pub deploy_code: Bytes,
    /// Bytecode of the libraries to deploy first, in order.
    pub libs: Vec<Bytes>,
    pub filter: F,
    pub test_options: O,
    /// How long a run may take before the first warning, and from each
    /// warning to the next. It ends no run.
    pub timeout: Span,
    /// Whether the suite has been run to its end. It is set once and
    /// never cleared.
    pub complete: bool,
    pub initial_balance: U256,
    pub sender: Option<Address>,
    /// The table by which custom errors are decoded.
    pub errors: Option<Abi>,
    pub known_contracts: K,
}

/// What the engine that executes a suite is made from.
pub struct ContractRunner<'a, X> {
    pub executor: X,
    pub contract: &'a Abi,
    pub code: Bytes,
    pub initial_balance: U256,
    pub sender: Option<Address>,
    pub errors: Option<&'a Abi>,
    pub predeploy_libs: &'a [Bytes],
}

/// Where the worker of a suite stands.
#[derive(Clone, Copy, Debug, PartialEq, Eq, Structural)]
pub enum WorkerState {
    Running,
    Succeeded,
    Failed,
}

/// The task that executes a suite and reports how it ended.
pub struct Worker<X, O, K, F> {
    pub suite: TestSuite<X, O, K, F>,
    pub state: WorkerState,
}

impl<X, O, K, F> TestSuite<X, O, K, F> {
    /// Whether the suite is one that can be asked for: it has a name, code
    /// to deploy and a timeout that is more than no time.
    pub open spec fn wf(self) -> bool {
        &&& self.id@.len() > 0
        &&& code_of(self.deploy_code).len() > 0
        &&& self.timeout@ > 0
    }

    /// Starts the suite: gives it up for the two tasks that are to run
    /// side by side, its watchdog and its worker. Nothing is executed
    /// here, so the call returns at once.
    ///
    /// The watchdog is idle and has the suite's id and timeout. The worker
    /// is running and has the suite as it was.
    pub fn run(self) -> (tasks: (Watchdog, Worker<X, O, K, F>))
        ensures
            tasks.0@ == WatchdogView::idle(self.id@, self.timeout@),
            tasks.0.id == self.id,
            tasks.0.timeout == self.timeout,
            tasks.1.suite == self,
            tasks.1.state is Running,
    {
        let watchdog = Watchdog::new(self.id.clone(), self.timeout);
        (watchdog, Worker { suite: self, state: WorkerState::Running })
    }

    /// What the engine for this suite is made from: the environment and
    /// the code to deploy as clones, so that the suite keeps its own, the
    /// balance and the sender by value, the rest by reference.
    pub fn runner(&self) -> (r: ContractRunner<'_, X>) where X: Clone
        ensures
            cloned(self.executor, r.executor),
            *r.contract == self.contract,
            code_of(r.code) == code_of(self.deploy_code),
            r.initial_balance == self.initial_balance,
            r.sender == self.sender,
            match self.errors {
                Some(table) => r.errors == Some(&table),
                None => r.errors is None,
            },
            r.predeploy_libs@ == self.libs@,
    {
        ContractRunner {
            executor: self.executor.clone(),
            contract: &self.contract,
            code: clone_code(&self.deploy_code),
            initial_balance: self.initial_balance,
            sender: self.sender,
            errors: self.errors.as_ref(),
            predeploy_libs: self.libs.as_slice(),
        }
    }
}

impl<X, O, K, F> Worker<X, O, K, F> {
    /// Takes note of how the execution ended.
    ///
    /// A running worker returns the one terminal event of its suite, a
    /// success or an error by the outcome, with the suite's id; it marks
    /// the suite complete and is from then on succeeded or failed. A worker
    /// that has finished returns nothing and stays as it is, so a suite has
    /// no second terminal event.
    pub fn finish<R, E>(&mut self, outcome: Result<R, E>) -> (event: Option<RunEvent<R, E>>)
        ensures
            old(self).state is Running ==> {
                &&& event matches Some(e)
                &&& e@ == RunEventView::terminal(old(self).suite.id@, outcome)
                &&& final(self).state == if outcome is Ok {
                    WorkerState::Succeeded
                } else {
                    WorkerState::Failed
                }
                &&& final(self).suite == (TestSuite { complete: true, ..old(self).suite })
            },
            !(old(self).state is Running) ==> event is None && *final(self) == *old(self),
    {
        match self.state {
            WorkerState::Running => {
                self.state = if outcome.is_ok() {
                    WorkerState::Succeeded
                } else {
                    WorkerState::Failed
                };
                self.suite.complete = true;
                Some(RunEvent::terminal(self.suite.id.clone(), outcome))
            },
            _ => None,
        }
    }
}

} // verus!
