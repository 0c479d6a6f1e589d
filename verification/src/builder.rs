//! Putting a suite together field by field.

use crate::chain::code_bytes;
use crate::chain::code_of;
use crate::span::Span;
use crate::suite::TestSuite;
use ethers::abi::Abi;
use ethers::abi::Address;
use ethers::types::Bytes;
use ethers::types::U256;
use vstd::prelude::*;

verus! {

/// The fields that a suite cannot do without.
#[derive(Clone, Copy, Debug, PartialEq, Eq, Structural)]
pub enum Field {
    Id,
    /// The execution environment.
    Executor,
    /// The interface of the contract.
    Contract,
    DeployCode,
    TestOptions,
    Timeout,
    InitialBalance,
    KnownContracts,
}

impl Field {
    /// The name by which a field is reported.
    pub open spec fn label(self) -> Seq<char> {
        match self {
            Field::Id => "Id"@,
            Field::Executor => "Executor"@,
            Field::Contract => "Contract"@,
            Field::DeployCode => "Deploy code"@,
            Field::TestOptions => "Test options"@,
            Field::Timeout => "Timeout"@,
            Field::InitialBalance => "Initial balance"@,
            Field::KnownContracts => "Known Contracts"@,
        }
    }

    /// The name by which this field is reported.
    pub fn name(&self) -> (r: &'static str)
        ensures
            r@ == self.label(),
    {
        match self {
            Field::Id => "Id",
            Field::Executor => "Executor",
            Field::Contract => "Contract",
            Field::DeployCode => "Deploy code",
            Field::TestOptions => "Test options",
            Field::Timeout => "Timeout",
            Field::InitialBalance => "Initial balance",
            Field::KnownContracts => "Known Contracts",
        }
    }
}

/// Why a builder gave no suite.
#[derive(Clone, Copy, Debug, PartialEq, Eq, Structural)]
pub enum BuildError {
    /// The field was never set.
    Missing(Field),
    /// The field was set to a value that no suite can have: an empty id,
    /// no code to deploy, or a timeout of no time.
    Invalid(Field),
}

/// Collects the fields of a suite. The libraries, the sender and the table
/// of errors may be left out; every other field has to be set before
/// `build`.
pub struct TestSuiteBuilder<X, O, K> {
    pub id: Option<String>,
    pub executor: Option<X>,
    pub contract: Option<Abi>,
    pub deploy_code: Option<Bytes>,
    pub libs: Option<Vec<Bytes>>,
    pub test_options: Option<O>,
    pub timeout: Option<Span>,
    pub initial_balance: Option<U256>,
    pub sender: Option<Address>,
    pub errors: Option<Abi>,
    pub known_contracts: Option<K>,
}

impl<X, O, K> TestSuiteBuilder<X, O, K> {
    /// Whether no field has been set.
    pub open spec fn is_blank(self) -> bool {
        &&& self.id is None
        &&& self.executor is None
        &&& self.contract is None
        &&& self.deploy_code is None
        &&& self.libs is None
        &&& self.test_options is None
        &&& self.timeout is None
        &&& self.initial_balance is None
        &&& self.sender is None
        &&& self.errors is None
        &&& self.known_contracts is None
    }

    /// The first field, in the order of their declaration, that a suite
    /// cannot do without and that has not been set.
    pub open spec fn missing(self) -> Option<Field> {
        if self.id is None {
            Some(Field::Id)
        } else if self.executor is None {
            Some(Field::Executor)
        } else if self.contract is None {
            Some(Field::Contract)
        } else if self.deploy_code is None {
            Some(Field::DeployCode)
        } else if self.test_options is None {
            Some(Field::TestOptions)
        } else if self.timeout is None {
            Some(Field::Timeout)
        } else if self.initial_balance is None {
            Some(Field::InitialBalance)
        } else if self.known_contracts is None {
            Some(Field::KnownContracts)
        } else {
            None
        }
    }

    /// The first field, in the order of their declaration, that is set to
    /// a value that no suite can have.
    pub open spec fn invalid(self) -> Option<Field> {
        if self.id matches Some(id) && id@.len() == 0 {
            Some(Field::Id)
        } else if self.deploy_code matches Some(code) && code_of(code).len() == 0 {
            Some(Field::DeployCode)
        } else if self.timeout matches Some(timeout) && timeout@ == 0 {
            Some(Field::Timeout)
        } else {
            None
        }
    }

    /// Why `build` gives no suite, if it gives none: a field that is
    /// missing comes before one that is invalid.
    pub open spec fn refusal(self) -> Option<BuildError> {
        match self.missing() {
            Some(field) => Some(BuildError::Missing(field)),
            None => match self.invalid() {
                Some(field) => Some(BuildError::Invalid(field)),
                None => None,
            },
        }
    }

    /// A builder that has an id and no execution environment is refused
    /// for want of the execution environment, whatever else it has.
    pub proof fn lemma_unset_executor_is_named(self)
        requires
            self.id is Some,
            self.executor is None,
        ensures
            self.refusal() == Some(BuildError::Missing(Field::Executor)),
    {
    }

    /// A builder with no field set.
    pub fn new() -> (r: Self)
        ensures
            r.is_blank(),
    {
        TestSuiteBuilder {
            id: None,
            executor: None,
            contract: None,
            deploy_code: None,
            libs: None,
            test_options: None,
            timeout: None,
            initial_balance: None,
            sender: None,
            errors: None,
            known_contracts: None,
        }
    }

    /// Sets the id that names the suite in its events.
    #[must_use]
    pub fn id(self, id: String) -> (r: Self)
        ensures
            r == (TestSuiteBuilder { id: Some(id), ..self }),
    {
        let mut this = self;
        this.id = Some(id);
        this
    }

    /// Sets the execution environment.
    #[must_use]
    pub fn executor(self, e: X) -> (r: Self)
        ensures
            r == (TestSuiteBuilder { executor: Some(e), ..self }),
    {
        let mut this = self;
        this.executor = Some(e);
        this
    }

    /// Sets the interface of the contract.
    #[must_use]
    pub fn contract(self, c: Abi) -> (r: Self)
        ensures
            r == (TestSuiteBuilder { contract: Some(c), ..self }),
    {
        let mut this = self;
        this.contract = Some(c);
        this
    }

    /// Sets the bytecode that deploys the contract.
    #[must_use]
    pub fn deploy_code(self, dc: Bytes) -> (r: Self)
        ensures
            r == (TestSuiteBuilder { deploy_code: Some(dc), ..self }),
    {
        let mut this = self;
        this.deploy_code = Some(dc);
        this
    }

    /// Sets the bytecode of the libraries to deploy first, in order.
    #[must_use]
    pub fn libs(self, libs: Vec<Bytes>) -> (r: Self)
        ensures
            r == (TestSuiteBuilder { libs: Some(libs), ..self }),
    {
        let mut this = self;
        this.libs = Some(libs);
        this
    }

    /// Sets the options of the run.
    #[must_use]
    pub fn test_options(self, opts: O) -> (r: Self)
        ensures
            r == (TestSuiteBuilder { test_options: Some(opts), ..self }),
    {
        let mut this = self;
        this.test_options = Some(opts);
        this
    }

    /// Sets the time after which a running suite is warned about.
    #[must_use]
    pub fn timeout(self, t: Span) -> (r: Self)
        ensures
            r == (TestSuiteBuilder { timeout: Some(t), ..self }),
    {
        let mut this = self;
        this.timeout = Some(t);
        this
    }

    /// Sets the balance that the contract starts with.
    #[must_use]
    pub fn initial_balance(self, b: U256) -> (r: Self)
        ensures
            r == (TestSuiteBuilder { initial_balance: Some(b), ..self }),
    {
        let mut this = self;
        this.initial_balance = Some(b);
        this
    }

    /// Sets the sender of the test calls, or none.
    #[must_use]
    pub fn sender(self, s: Option<Address>) -> (r: Self)
        ensures
            r == (TestSuiteBuilder { sender: s, ..self }),
    {
        let mut this = self;
        this.sender = s;
        this
    }

    /// Sets the table by which custom errors are decoded, or none.
    #[must_use]
    pub fn errors(self, e: Option<Abi>) -> (r: Self)
        ensures
            r == (TestSuiteBuilder { errors: e, ..self }),
    {
        let mut this = self;
        this.errors = e;
        this
    }

    /// Sets the table of known contracts.
    #[must_use]
    pub fn known_contracts(self, kc: K) -> (r: Self)
        ensures
            r == (TestSuiteBuilder { known_contracts: Some(kc), ..self }),
    {
        let mut this = self;
        this.known_contracts = Some(kc);
        this
    }

    /// Makes the suite, to run the tests that `filter` picks.
    ///
    /// A builder that lacks a field a suite cannot do without is refused
    /// with the first such field, by the order of declaration. One that has
    /// them all, but a value among them that no suite can have, is refused
    /// with the first such field. Every other builder gives the suite with
    /// the values set, no libraries where none were set, and not complete.
    #[must_use]
    pub fn build<F>(self, filter: F) -> (r: Result<TestSuite<X, O, K, F>, BuildError>)
        ensures
            match r {
                Ok(suite) => {
                    &&& self.refusal() is None
                    &&& self.id == Some(suite.id)
                    &&& self.executor == Some(suite.executor)
                    &&& self.contract == Some(suite.contract)
                    &&& self.deploy_code == Some(suite.deploy_code)
                    &&& match self.libs {
                        Some(libs) => suite.libs == libs,
                        None => suite.libs@.len() == 0,
                    }
                    &&& suite.filter == filter
                    &&& self.test_options == Some(suite.test_options)
                    &&& self.timeout == Some(suite.timeout)
                    &&& !suite.complete
                    &&& self.initial_balance == Some(suite.initial_balance)
                    &&& suite.sender == self.sender
                    &&& suite.errors == self.errors
                    &&& self.known_contracts == Some(suite.known_contracts)
                    &&& suite.wf()
                },
                Err(e) => self.refusal() == Some(e),
            },
    {
        let id = match self.id {
            Some(id) => id,
            None => return Err(BuildError::Missing(Field::Id)),
        };
        let executor = match self.executor {
            Some(executor) => executor,
            None => return Err(BuildError::Missing(Field::Executor)),
        };
        let contract = match self.contract {
            Some(contract) => contract,
            None => return Err(BuildError::Missing(Field::Contract)),
        };
        let deploy_code = match self.deploy_code {
            Some(deploy_code) => deploy_code,
            None => return Err(BuildError::Missing(Field::DeployCode)),
        };
        let test_options = match self.test_options {
            Some(test_options) => test_options,
            None => return Err(BuildError::Missing(Field::TestOptions)),
        };
        let timeout = match self.timeout {
            Some(timeout) => timeout,
            None => return Err(BuildError::Missing(Field::Timeout)),
        };
        let initial_balance = match self.initial_balance {
            Some(initial_balance) => initial_balance,
            None => return Err(BuildError::Missing(Field::InitialBalance)),
        };
        let known_contracts = match self.known_contracts {
            Some(known_contracts) => known_contracts,
            None => return Err(BuildError::Missing(Field::KnownContracts)),
        };
        if id.as_str().is_empty() {
            return Err(BuildError::Invalid(Field::Id));
        }
        if code_bytes(&deploy_code).len() == 0 {
            return Err(BuildError::Invalid(Field::DeployCode));
        }
        if timeout.is_zero() {
            return Err(BuildError::Invalid(Field::Timeout));
        }
        let libs = match self.libs {
            Some(libs) => libs,
            None => Vec::new(),
        };
        Ok(
            TestSuite {
                id,
                executor,
                contract,
                deploy_code,
                libs,
                filter,
                test_options,
                timeout,
                complete: false,
                initial_balance,
                sender: self.sender,
                errors: self.errors,
                known_contracts,
            },
        )
    }
}

impl<X, O, K> Default for TestSuiteBuilder<X, O, K> {
    fn default() -> (r: Self)
        ensures
            r.is_blank(),
    {
        TestSuiteBuilder::new()
    }
}

} // verus!
