use std::collections::HashMap;

use erc6551::deriver::CreationParams;
use erc6551::erc6551registry::{
    account_exists, Action, Creation, ERC6551RegistryContract, LedgerEvent, Stage, Step,
};
use erc6551::error::ContractError;
use erc6551::ierc6551registry::IERC6551RegistryContract;
use erc6551::primitives::{Address, U256};

/// A ledger that keeps the code of each account and counts what was asked
/// of it.
struct FakeLedger {
    code: HashMap<[u8; 20], Vec<u8>>,
    deploy_succeeds: bool,
    initialize_succeeds: bool,
    code_reads: usize,
    deploys: usize,
    initializations: usize,
}

impl FakeLedger {
    fn new() -> Self {
        FakeLedger {
            code: HashMap::new(),
            deploy_succeeds: true,
            initialize_succeeds: true,
            code_reads: 0,
            deploys: 0,
            initializations: 0,
        }
    }

    fn answer(&mut self, registry: &ERC6551RegistryContract, action: Action) -> LedgerEvent {
        match action {
            Action::GetCode { address } => {
                self.code_reads += 1;
                LedgerEvent::Code { code: self.code.get(&address.bytes).cloned().unwrap_or_default() }
            }
            Action::Deploy { params, init_data: _ } => {
                self.deploys += 1;
                if self.deploy_succeeds {
                    let at = registry.get_account(
                        params.implementation,
                        params.chain_id,
                        params.token_contract,
                        params.token_id,
                        params.salt,
                    );
                    self.code.insert(at.bytes, vec![0x36, 0x3d]);
                }
                LedgerEvent::Deployed { success: self.deploy_succeeds }
            }
            Action::Initialize { address: _, init_data } => {
                self.initializations += 1;
                LedgerEvent::Initialized { success: self.initialize_succeeds, result: init_data }
            }
        }
    }

    fn create(
        &mut self,
        registry: &ERC6551RegistryContract,
        params: &CreationParams,
        init_data: Vec<u8>,
    ) -> Result<Address, ContractError> {
        let mut creation = registry.create_account(
            params.implementation,
            params.chain_id,
            params.token_contract,
            params.token_id,
            params.salt,
            init_data,
        );
        for _ in 0..4 {
            let event = self.answer(registry, creation.pending());
            match creation.advance(event) {
                Step::Continue { creation: next } => creation = next,
                Step::Finished { outcome } => return outcome,
            }
        }
        panic!("a creation takes at most three requests");
    }
}

fn sample_params() -> CreationParams {
    CreationParams {
        implementation: Address::from([0xAA; 20]),
        chain_id: U256::from(1u64),
        token_contract: Address::from([0xBB; 20]),
        token_id: U256::from(7u64),
        salt: U256::from(0u64),
    }
}

fn sample_registry() -> ERC6551RegistryContract {
    ERC6551RegistryContract::new(Address::from([0x11; 20]))
}

fn begin(registry: &ERC6551RegistryContract, params: &CreationParams, init_data: Vec<u8>) -> Creation {
    registry.create_account(
        params.implementation,
        params.chain_id,
        params.token_contract,
        params.token_id,
        params.salt,
        init_data,
    )
}

fn expect_continue(step: Step) -> Creation {
    match step {
        Step::Continue { creation } => creation,
        Step::Finished { outcome } => panic!("creation ended early: {:?}", outcome),
    }
}

fn expect_finished(step: Step) -> Result<Address, ContractError> {
    match step {
        Step::Finished { outcome } => outcome,
        Step::Continue { creation } => panic!("creation goes on: {:?}", creation),
    }
}

#[test]
fn first_creation_deploys_and_second_does_not() {
    let registry = sample_registry();
    let params = sample_params();
    let expected = registry.get_account(
        params.implementation,
        params.chain_id,
        params.token_contract,
        params.token_id,
        params.salt,
    );
    let mut ledger = FakeLedger::new();

    let first = ledger.create(&registry, &params, vec![]);
    assert_eq!(first, Ok(expected));
    assert_eq!(ledger.code_reads, 1);
    assert_eq!(ledger.deploys, 1);
    assert_eq!(ledger.initializations, 0);

    let second = ledger.create(&registry, &params, vec![]);
    assert_eq!(second, Ok(expected));
    assert_eq!(ledger.code_reads, 2);
    assert_eq!(ledger.deploys, 1);
    assert_eq!(ledger.initializations, 0);
}

#[test]
fn second_creation_with_init_data_neither_deploys_nor_initializes() {
    let registry = sample_registry();
    let params = sample_params();
    let mut ledger = FakeLedger::new();
    let first = ledger.create(&registry, &params, vec![1, 2, 3]);
    assert!(first.is_ok());
    assert_eq!((ledger.deploys, ledger.initializations), (1, 1));
    let second = ledger.create(&registry, &params, vec![4, 5, 6]);
    assert_eq!(second, first);
    assert_eq!((ledger.code_reads, ledger.deploys, ledger.initializations), (2, 1, 1));
}

#[test]
fn creation_begins_by_asking_for_the_code_at_the_derived_address() {
    let registry = sample_registry();
    let params = sample_params();
    let creation = begin(&registry, &params, vec![]);
    let expected = registry.get_account(
        params.implementation,
        params.chain_id,
        params.token_contract,
        params.token_id,
        params.salt,
    );
    assert_eq!(creation.stage(), Stage::AwaitingCode);
    assert_eq!(creation.address(), expected);
    assert_eq!(creation.pending(), Action::GetCode { address: expected });
}

#[test]
fn existing_account_is_returned_at_once() {
    let registry = sample_registry();
    let params = sample_params();
    let creation = begin(&registry, &params, vec![1]);
    let address = creation.address();
    let outcome = expect_finished(creation.advance(LedgerEvent::Code { code: vec![0x00] }));
    assert_eq!(outcome, Ok(address));
}

#[test]
fn missing_account_is_deployed_with_the_parameters_and_the_init_data() {
    let registry = sample_registry();
    let params = sample_params();
    let creation = begin(&registry, &params, vec![1, 2]);
    let creation = expect_continue(creation.advance(LedgerEvent::Code { code: vec![] }));
    assert_eq!(creation.stage(), Stage::AwaitingDeploy);
    assert_eq!(creation.pending(), Action::Deploy { params, init_data: vec![1, 2] });
}

#[test]
fn refused_deployment_is_account_creation_failed() {
    let registry = sample_registry();
    let params = sample_params();
    let creation = begin(&registry, &params, vec![1, 2]);
    let creation = expect_continue(creation.advance(LedgerEvent::Code { code: vec![] }));
    let outcome = expect_finished(creation.advance(LedgerEvent::Deployed { success: false }));
    assert_eq!(outcome, Err(ContractError::AccountCreationFailed));
}

#[test]
fn deployment_without_init_data_ends_the_creation() {
    let registry = sample_registry();
    let params = sample_params();
    let creation = begin(&registry, &params, vec![]);
    let address = creation.address();
    let creation = expect_continue(creation.advance(LedgerEvent::Code { code: vec![] }));
    let outcome = expect_finished(creation.advance(LedgerEvent::Deployed { success: true }));
    assert_eq!(outcome, Ok(address));
}

#[test]
fn deployment_with_init_data_is_followed_by_initialization() {
    let registry = sample_registry();
    let params = sample_params();
    let creation = begin(&registry, &params, vec![0xca, 0xfe]);
    let address = creation.address();
    let creation = expect_continue(creation.advance(LedgerEvent::Code { code: vec![] }));
    let creation = expect_continue(creation.advance(LedgerEvent::Deployed { success: true }));
    assert_eq!(creation.stage(), Stage::AwaitingInitialize);
    assert_eq!(creation.pending(), Action::Initialize { address, init_data: vec![0xca, 0xfe] });
    let outcome = expect_finished(
        creation.advance(LedgerEvent::Initialized { success: true, result: vec![] }),
    );
    assert_eq!(outcome, Ok(address));
}

#[test]
fn failed_initialization_is_reported_with_what_the_call_returned() {
    let registry = sample_registry();
    let params = sample_params();
    let creation = begin(&registry, &params, vec![0xca, 0xfe]);
    let creation = expect_continue(creation.advance(LedgerEvent::Code { code: vec![] }));
    let creation = expect_continue(creation.advance(LedgerEvent::Deployed { success: true }));
    let outcome = expect_finished(
        creation.advance(LedgerEvent::Initialized { success: false, result: vec![0x08, 0xc3] }),
    );
    assert_eq!(outcome, Err(ContractError::InitializationFailed { detail: vec![0x08, 0xc3] }));
}

#[test]
fn failed_initialization_leaves_the_account_on_the_ledger() {
    let registry = sample_registry();
    let params = sample_params();
    let mut ledger = FakeLedger::new();
    ledger.initialize_succeeds = false;
    let first = ledger.create(&registry, &params, vec![1]);
    assert_eq!(first, Err(ContractError::InitializationFailed { detail: vec![1] }));
    assert_eq!((ledger.deploys, ledger.initializations), (1, 1));
    let second = ledger.create(&registry, &params, vec![1]);
    assert_eq!(
        second,
        Ok(registry.get_account(
            params.implementation,
            params.chain_id,
            params.token_contract,
            params.token_id,
            params.salt,
        ))
    );
    assert_eq!((ledger.deploys, ledger.initializations), (1, 1));
}

#[test]
fn refused_deployment_leaves_nothing_and_is_not_retried() {
    let registry = sample_registry();
    let params = sample_params();
    let mut ledger = FakeLedger::new();
    ledger.deploy_succeeds = false;
    let outcome = ledger.create(&registry, &params, vec![1]);
    assert_eq!(outcome, Err(ContractError::AccountCreationFailed));
    assert_eq!((ledger.code_reads, ledger.deploys, ledger.initializations), (1, 1, 0));
    assert!(ledger.code.is_empty());
}

#[test]
fn event_that_answers_nothing_is_ignored() {
    let registry = sample_registry();
    let params = sample_params();
    let creation = begin(&registry, &params, vec![1]);
    let address = creation.address();

    let creation = expect_continue(creation.advance(LedgerEvent::Deployed { success: true }));
    assert_eq!(creation.stage(), Stage::AwaitingCode);
    let creation = expect_continue(
        creation.advance(LedgerEvent::Initialized { success: false, result: vec![1] }),
    );
    assert_eq!(creation.pending(), Action::GetCode { address });

    let creation = expect_continue(creation.advance(LedgerEvent::Code { code: vec![] }));
    let creation = expect_continue(creation.advance(LedgerEvent::Code { code: vec![1] }));
    assert_eq!(creation.stage(), Stage::AwaitingDeploy);

    let creation = expect_continue(creation.advance(LedgerEvent::Deployed { success: true }));
    let creation = expect_continue(creation.advance(LedgerEvent::Deployed { success: false }));
    assert_eq!(creation.stage(), Stage::AwaitingInitialize);
    assert_eq!(creation.address(), address);
}

#[test]
fn get_account_agrees_with_create_account() {
    let params = sample_params();
    let interface = IERC6551RegistryContract::new(Address::from([0x11; 20]));
    let looked_up = interface.get_account(
        params.implementation,
        params.chain_id,
        params.token_contract,
        params.token_id,
        params.salt,
    );
    let creation = interface.create_account(
        params.implementation,
        params.chain_id,
        params.token_contract,
        params.token_id,
        params.salt,
        vec![],
    );
    let creation = expect_continue(creation.advance(LedgerEvent::Code { code: vec![] }));
    let created = expect_finished(creation.advance(LedgerEvent::Deployed { success: true }));
    assert_eq!(created, Ok(looked_up));
}

#[test]
fn interface_and_registry_derive_the_same_address() {
    let params = sample_params();
    let at = Address::from([0x11; 20]);
    let registry = ERC6551RegistryContract::new(at);
    let interface = IERC6551RegistryContract::new(at);
    assert_eq!(registry.contract_address(), at);
    assert_eq!(
        registry.get_account(
            params.implementation,
            params.chain_id,
            params.token_contract,
            params.token_id,
            params.salt,
        ),
        interface.get_account(
            params.implementation,
            params.chain_id,
            params.token_contract,
            params.token_id,
            params.salt,
        )
    );
}

#[test]
fn different_registries_give_different_accounts() {
    let params = sample_params();
    let one = ERC6551RegistryContract::new(Address::from([0x11; 20]));
    let other = ERC6551RegistryContract::new(Address::from([0x12; 20]));
    assert_ne!(begin(&one, &params, vec![]).address(), begin(&other, &params, vec![]).address());
}

#[test]
fn any_code_but_none_shows_an_account() {
    assert!(!account_exists(&[]));
    assert!(account_exists(&[0]));
    assert!(account_exists(&[0x36, 0x3d, 0x3d]));
}
