use vstd::prelude::*;

verus! {

/// Why a call into the contract fails; a failing call changes no state.
#[derive(Clone, Copy, Debug, PartialEq, Eq, Structural)]
pub enum ContractError {
    /// An address string was rejected by the host's address validation.
    InvalidAddress,
    /// The caller lacks the admin or whitelist capability the operation needs.
    Unauthorized,
    /// No token contract is bound yet, or the reply named no created contract.
    NoContractAddress,
}

impl ContractError {
    /// A short description of the error.
    pub fn message(&self) -> (r: String)
        ensures
            r@ == match self {
                ContractError::InvalidAddress => "Invalid address"@,
                ContractError::Unauthorized => "Unauthorized"@,
                ContractError::NoContractAddress => "No contract address"@,
            },
    {
        match self {
            ContractError::InvalidAddress => "Invalid address".to_owned(),
            ContractError::Unauthorized => "Unauthorized".to_owned(),
            ContractError::NoContractAddress => "No contract address".to_owned(),
        }
    }
}

} // verus!
