//! The registry of token-bound accounts.
//!
//! Creating an account takes up to three requests to the ledger: is there
//! code at the address, deploy the account, initialise it. The registry
//! makes none of them itself. It says which request is due, takes the
//! ledger's answer, and decides what follows; whoever drives a creation
//! performs the requests.

use vstd::prelude::*;
use crate::deriver::{derived_address, CreationParams};
use crate::error::{ContractError, ContractErrorView};
use crate::primitives::{Address, U256};

verus! {

/// How far a creation has come.
#[derive(Clone, Copy, Debug, PartialEq, Eq, Structural)]
pub enum Stage {
    /// The ledger is being asked whether the account exists.
    AwaitingCode,
    /// The ledger is being asked to deploy the account.
    AwaitingDeploy,
    /// The deployed account is being initialised.
    AwaitingInitialize,
}

/// A request to the ledger.
#[derive(Debug, PartialEq, Eq)]
pub enum Action {
    /// Read the code stored at `address`.
    GetCode { address: Address },
    /// Invoke `createAccount` on the registry contract with `params` and
    /// `init_data`.
    Deploy { params: CreationParams, init_data: Vec<u8> },
    /// Invoke `initializeAccount` with `address` and `init_data`.
    Initialize { address: Address, init_data: Vec<u8> },
}

/// An `Action` with its bytes as sequences.
pub ghost enum ActionView {
    GetCode { address: Seq<u8> },
    Deploy { params: CreationParams, init_data: Seq<u8> },
    Initialize { address: Seq<u8>, init_data: Seq<u8> },
}

impl View for Action {
    type V = ActionView;

    open spec fn view(&self) -> ActionView {
        match *self {
            Action::GetCode { address } => ActionView::GetCode { address: address@ },
            Action::Deploy { params, init_data } => ActionView::Deploy {
                params,
                init_data: init_data@,
            },
            Action::Initialize { address, init_data } => ActionView::Initialize {
                address: address@,
                init_data: init_data@,
            },
        }
    }
}

/// An answer of the ledger.
#[derive(Debug, PartialEq, Eq)]
pub enum LedgerEvent {
    /// The code read; empty where there is no account.
    Code { code: Vec<u8> },
    /// Whether the deployment went through.
    Deployed { success: bool },
    /// Whether the initialisation call succeeded, and what it returned.
    Initialized { success: bool, result: Vec<u8> },
}

/// A `LedgerEvent` with its bytes as sequences.
pub ghost enum LedgerEventView {
    Code { code: Seq<u8> },
    Deployed { success: bool },
    Initialized { success: bool, result: Seq<u8> },
}

impl View for LedgerEvent {
    type V = LedgerEventView;

    open spec fn view(&self) -> LedgerEventView {
        match *self {
            LedgerEvent::Code { code } => LedgerEventView::Code { code: code@ },
            LedgerEvent::Deployed { success } => LedgerEventView::Deployed { success },
            LedgerEvent::Initialized { success, result } => LedgerEventView::Initialized {
                success,
                result: result@,
            },
        }
    }
}

/// A creation under way, apart from how it is stored.
pub ghost struct CreationView {
    pub stage: Stage,
    /// The account's address, derived once when the creation began.
    pub address: Seq<u8>,
    pub params: CreationParams,
    pub init_data: Seq<u8>,
}

/// How a creation ends, with its bytes as sequences.
pub type OutcomeView = Result<Seq<u8>, ContractErrorView>;

/// What a step leads to, apart from how it is stored.
pub ghost enum StepView {
    /// The creation goes on; its pending request is due.
    Continue { creation: CreationView },
    /// The creation is over.
    Finished { outcome: OutcomeView },
}

/// The outcome of a creation as `OutcomeView`.
pub open spec fn outcome_view(outcome: Result<Address, ContractError>) -> OutcomeView {
    match outcome {
        Ok(address) => Ok(address@),
        Err(error) => Err(error@),
    }
}

/// Whether code read from the ledger shows an account: it does unless it
/// is empty.
pub open spec fn code_shows_account(code: Seq<u8>) -> bool {
    code.len() > 0
}

impl CreationView {
    /// The creation of the account that `params` identifies, as the
    /// registry at `registry` begins it.
    pub open spec fn start(registry: Address, params: CreationParams, init_data: Seq<u8>) -> CreationView {
        CreationView {
            stage: Stage::AwaitingCode,
            address: derived_address(registry, params),
            params,
            init_data,
        }
    }

    /// The request that is due.
    pub open spec fn pending(self) -> ActionView {
        match self.stage {
            Stage::AwaitingCode => ActionView::GetCode { address: self.address },
            Stage::AwaitingDeploy => ActionView::Deploy {
                params: self.params,
                init_data: self.init_data,
            },
            Stage::AwaitingInitialize => ActionView::Initialize {
                address: self.address,
                init_data: self.init_data,
            },
        }
    }

    /// Whether `event` answers the request that is due.
    pub open spec fn answered_by(self, event: LedgerEventView) -> bool {
        match self.stage {
            Stage::AwaitingCode => event is Code,
            Stage::AwaitingDeploy => event is Deployed,
            Stage::AwaitingInitialize => event is Initialized,
        }
    }

    /// What follows the ledger's answer `event`.
    ///
    /// An account that exists is returned as it is. One that does not is
    /// deployed; a refused deployment ends the creation. After a
    /// deployment the account is initialised if there is data to
    /// initialise it with, and a failed initialisation is reported with
    /// what the call returned. An event that does not answer the pending
    /// request changes nothing.
    pub open spec fn step(self, event: LedgerEventView) -> StepView {
        match (self.stage, event) {
            (Stage::AwaitingCode, LedgerEventView::Code { code }) => {
                if code_shows_account(code) {
                    StepView::Finished { outcome: Ok(self.address) }
                } else {
                    StepView::Continue {
                        creation: CreationView { stage: Stage::AwaitingDeploy, ..self },
                    }
                }
            },
            (Stage::AwaitingDeploy, LedgerEventView::Deployed { success }) => {
                if !success {
                    StepView::Finished { outcome: Err(ContractErrorView::AccountCreationFailed) }
                } else if self.init_data.len() > 0 {
                    StepView::Continue {
                        creation: CreationView { stage: Stage::AwaitingInitialize, ..self },
                    }
                } else {
                    StepView::Finished { outcome: Ok(self.address) }
                }
            },
            (Stage::AwaitingInitialize, LedgerEventView::Initialized { success, result }) => {
                if success {
                    StepView::Finished { outcome: Ok(self.address) }
                } else {
                    StepView::Finished {
                        outcome: Err(ContractErrorView::InitializationFailed { detail: result }),
                    }
                }
            },
            _ => StepView::Continue { creation: self },
        }
    }
}

/// A creation under way.
#[derive(Debug)]
pub struct Creation {
    stage: Stage,
    address: Address,
    params: CreationParams,
    init_data: Vec<u8>,
}

impl View for Creation {
    type V = CreationView;

    closed spec fn view(&self) -> CreationView {
        CreationView {
            stage: self.stage,
            address: self.address@,
            params: self.params,
            init_data: self.init_data@,
        }
    }
}

/// What a step leads to.
#[derive(Debug)]
pub enum Step {
    /// The creation goes on; its pending request is due.
    Continue { creation: Creation },
    /// The creation is over.
    Finished { outcome: Result<Address, ContractError> },
}

impl View for Step {
    type V = StepView;

    open spec fn view(&self) -> StepView {
        match *self {
            Step::Continue { creation } => StepView::Continue { creation: creation@ },
            Step::Finished { outcome } => StepView::Finished { outcome: outcome_view(outcome) },
        }
    }
}

/// Whether code read from the ledger shows an account.
pub fn account_exists(code: &[u8]) -> (exists: bool)
    ensures
        exists == code_shows_account(code@),
{
    code.len() > 0
}

impl Creation {
    /// The address of the account being created.
    pub fn address(&self) -> (address: Address)
        ensures
            address@ == self@.address,
    {
        self.address
    }

    /// How far the creation has come.
    pub fn stage(&self) -> (stage: Stage)
        ensures
            stage == self@.stage,
    {
        self.stage
    }

    /// The request that is due.
    pub fn pending(&self) -> (action: Action)
        ensures
            action@ == self@.pending(),
    {
        match self.stage {
            Stage::AwaitingCode => Action::GetCode { address: self.address },
            Stage::AwaitingDeploy => Action::Deploy {
                params: self.params,
                init_data: self.init_data.clone(),
            },
            Stage::AwaitingInitialize => Action::Initialize {
                address: self.address,
                init_data: self.init_data.clone(),
            },
        }
    }

    /// Takes the ledger's answer and decides what follows.
    pub fn advance(self, event: LedgerEvent) -> (step: Step)
        ensures
            step@ == self@.step(event@),
    {
        let Creation { stage, address, params, init_data } = self;
        match (stage, event) {
            (Stage::AwaitingCode, LedgerEvent::Code { code }) => {
                if account_exists(code.as_slice()) {
                    Step::Finished { outcome: Ok(address) }
                } else {
                    Step::Continue {
                        creation: Creation { stage: Stage::AwaitingDeploy, address, params, init_data },
                    }
                }
            },
            (Stage::AwaitingDeploy, LedgerEvent::Deployed { success }) => {
                if !success {
                    Step::Finished { outcome: Err(ContractError::AccountCreationFailed) }
                } else if init_data.len() > 0 {
                    Step::Continue {
                        creation: Creation {
                            stage: Stage::AwaitingInitialize,
                            address,
                            params,
                            init_data,
                        },
                    }
                } else {
                    Step::Finished { outcome: Ok(address) }
                }
            },
            (Stage::AwaitingInitialize, LedgerEvent::Initialized { success, result }) => {
                if success {
                    Step::Finished { outcome: Ok(address) }
                } else {
                    Step::Finished {
                        outcome: Err(ContractError::InitializationFailed { detail: result }),
                    }
                }
            },
            (stage, _) => Step::Continue { creation: Creation { stage, address, params, init_data } },
        }
    }
}

/// The registry contract, known by its address.
#[derive(Clone, Copy, Debug)]
pub struct ERC6551RegistryContract {
    address: Address,
}

impl ERC6551RegistryContract {
    /// The registry deployed at `contract_address`.
    pub fn new(contract_address: Address) -> (registry: ERC6551RegistryContract)
        ensures
            registry.address() == contract_address,
    {
        ERC6551RegistryContract { address: contract_address }
    }

    /// The address that the registry is deployed at.
    pub closed spec fn address(&self) -> Address {
        self.address
    }

    /// The address that the registry is deployed at.
    #[verifier::when_used_as_spec(address)]
    pub fn contract_address(&self) -> (address: Address)
        ensures
            address == self.address(),
    {
        self.address
    }

    /// Begins the creation of the account that the five parameters
    /// identify: derives its address, once, and asks whether it exists.
    pub fn create_account(
        &self,
        implementation: Address,
        chain_id: U256,
        token_contract: Address,
        token_id: U256,
        salt: U256,
        init_data: Vec<u8>,
    ) -> (creation: Creation)
        ensures
            creation@ == CreationView::start(
                self.address(),
                (CreationParams { implementation, chain_id, token_contract, token_id, salt }),
                init_data@,
            ),
    {
        let params = CreationParams { implementation, chain_id, token_contract, token_id, salt };
        let address = crate::deriver::derive(&self.address, &params);
        Creation { stage: Stage::AwaitingCode, address, params, init_data }
    }

    /// The address of the account that the five parameters identify,
    /// whether or not it exists. Nothing is asked of the ledger.
    pub fn get_account(
        &self,
        implementation: Address,
        chain_id: U256,
        token_contract: Address,
        token_id: U256,
        salt: U256,
    ) -> (account: Address)
        ensures
            account@ == derived_address(
                self.address(),
                (CreationParams { implementation, chain_id, token_contract, token_id, salt }),
            ),
    {
        let params = CreationParams { implementation, chain_id, token_contract, token_id, salt };
        crate::deriver::derive(&self.address, &params)
    }
}

} // verus!
