//! The registry as its callers see it: the address of an account, and the
//! creation of one.

use vstd::prelude::*;
use crate::deriver::{derived_address, CreationParams};
use crate::erc6551registry::{Creation, CreationView, ERC6551RegistryContract};
use crate::primitives::{Address, U256};

verus! {

/// The interface of the registry deployed at some address.
#[derive(Clone, Copy, Debug)]
pub struct IERC6551RegistryContract {
    registry: ERC6551RegistryContract,
}

impl IERC6551RegistryContract {
    /// The interface of the registry deployed at `contract_address`.
    pub fn new(contract_address: Address) -> (interface: IERC6551RegistryContract)
        ensures
            interface.address() == contract_address,
    {
        IERC6551RegistryContract { registry: ERC6551RegistryContract::new(contract_address) }
    }

    /// The address that the registry is deployed at.
    pub closed spec fn address(&self) -> Address {
        self.registry.address()
    }

    /// Begins the creation of the account that the five parameters
    /// identify, as the registry itself does.
    pub fn create_account(
        &self,
        implementation: Address,
        chain_id: U256,
        token_contract: Address,
        token_id: U256,
        salt: U256,
        init_data: Vec<u8>,
    ) -> (creation: Creation)
        ensures
            creation@ == CreationView::start(
                self.address(),
                (CreationParams { implementation, chain_id, token_contract, token_id, salt }),
                init_data@,
            ),
    {
        self.registry.create_account(
            implementation,
            chain_id,
            token_contract,
            token_id,
            salt,
            init_data,
        )
    }

    /// The address of the account that the five parameters identify,
    /// whether or not it exists. Nothing is asked of the ledger.
    pub fn get_account(
        &self,
        implementation: Address,
        chain_id: U256,
        token_contract: Address,
        token_id: U256,
        salt: U256,
    ) -> (account: Address)
        ensures
            account@ == derived_address(
                self.address(),
                (CreationParams { implementation, chain_id, token_contract, token_id, salt }),
            ),
    {
        self.registry.get_account(implementation, chain_id, token_contract, token_id, salt)
    }
}

} // verus!
