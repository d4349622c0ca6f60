//! The failures that an account or a registry reports.

use vstd::prelude::*;

verus! {

/// A failure of an account or registry operation.
#[derive(Debug, PartialEq, Eq)]
pub enum ContractError {
    /// The ledger refused to deploy the account; nothing was created.
    AccountCreationFailed,
    /// The account was deployed but its initialisation call failed; the
    /// bytes are what that call handed back.
    InitializationFailed { detail: Vec<u8> },
    /// A call was attempted on a locked account.
    AccountLocked,
}

/// A `ContractError` with its bytes as a sequence.
pub ghost enum ContractErrorView {
    AccountCreationFailed,
    InitializationFailed { detail: Seq<u8> },
    AccountLocked,
}

impl View for ContractError {
    type V = ContractErrorView;

    open spec fn view(&self) -> ContractErrorView {
        match *self {
            ContractError::AccountCreationFailed => ContractErrorView::AccountCreationFailed,
            ContractError::InitializationFailed { detail } => ContractErrorView::InitializationFailed {
                detail: detail@,
            },
            ContractError::AccountLocked => ContractErrorView::AccountLocked,
        }
    }
}

} // verus!
