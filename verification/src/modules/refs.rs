//! The addresses of the contracts most votings call: the variable
//! repository, the reputation token, and the VA and KYC tokens.

use vstd::prelude::*;

use crate::errors::Error;
use crate::types::Address;

verus! {

/// A reference to the variable repository contract.
#[derive(Clone, Copy, Debug)]
pub struct VariableRepositoryContractRef {
    pub address: Address,
}

/// A reference to the reputation token contract.
#[derive(Clone, Copy, Debug)]
pub struct ReputationContractRef {
    pub address: Address,
}

/// A reference to the VA token contract.
#[derive(Clone, Copy, Debug)]
pub struct VaNftContractRef {
    pub address: Address,
}

/// A reference to the KYC token contract.
#[derive(Clone, Copy, Debug)]
pub struct KycNftContractRef {
    pub address: Address,
}

/// The stored addresses; each is unset until it is first set.
#[derive(Clone, Copy, Debug)]
pub struct ContractRefs {
    pub variable_repository: Option<Address>,
    pub reputation_token: Option<Address>,
    pub va_token: Option<Address>,
    pub kyc_token: Option<Address>,
}

/// An address that must be set: [`Error::VariableValueNotSet`] otherwise.
pub open spec fn required(a: Option<Address>) -> Result<Address, Error> {
    match a {
        Some(a) => Ok(a),
        None => Err(Error::VariableValueNotSet),
    }
}

fn required_address(a: Option<Address>) -> (r: Result<Address, Error>)
    ensures
        r == required(a),
{
    match a {
        Some(a) => Ok(a),
        None => Err(Error::VariableValueNotSet),
    }
}

/// The reputation token's reference, once set, is read back, and setting
/// any other reference afterwards leaves it as it is.
pub proof fn law_reputation_token_read_back(
    refs: ContractRefs,
    reputation_token: Address,
    variable_repository: Address,
    va_token: Address,
    kyc_token: Address,
)
    ensures
        ({
            let set = ContractRefs { reputation_token: Some(reputation_token), ..refs };
            let later = ContractRefs {
                variable_repository: Some(variable_repository),
                va_token: Some(va_token),
                kyc_token: Some(kyc_token),
                ..set
            };
            &&& required(set.reputation_token) == Ok::<Address, Error>(reputation_token)
            &&& required(later.reputation_token) == Ok::<Address, Error>(reputation_token)
        }),
{
}

impl ContractRefs {
    /// No address set.
    pub fn new() -> (r: ContractRefs)
        ensures
            r.variable_repository is None,
            r.reputation_token is None,
            r.va_token is None,
            r.kyc_token is None,
    {
        ContractRefs {
            variable_repository: None,
            reputation_token: None,
            va_token: None,
            kyc_token: None,
        }
    }

    /// Sets the address of the variable repository.
    pub fn set_variable_repository(&mut self, variable_repository: Address)
        ensures
            *final(self) == (ContractRefs {
                variable_repository: Some(variable_repository),
                ..*old(self)
            }),
    {
        self.variable_repository = Some(variable_repository);
    }

    /// Sets the address of the reputation token.
    pub fn set_reputation_token(&mut self, reputation_token: Address)
        ensures
            *final(self) == (ContractRefs { reputation_token: Some(reputation_token), ..*old(self) }),
    {
        self.reputation_token = Some(reputation_token);
    }

    /// Sets the address of the VA token.
    pub fn set_va_token(&mut self, va_token: Address)
        ensures
            *final(self) == (ContractRefs { va_token: Some(va_token), ..*old(self) }),
    {
        self.va_token = Some(va_token);
    }

    /// Sets the address of the KYC token.
    pub fn set_kyc_token(&mut self, kyc_token: Address)
        ensures
            *final(self) == (ContractRefs { kyc_token: Some(kyc_token), ..*old(self) }),
    {
        self.kyc_token = Some(kyc_token);
    }

    /// The address of the variable repository.
    pub fn variable_repository_address(&self) -> (r: Result<Address, Error>)
        ensures
            r == required(self.variable_repository),
    {
        required_address(self.variable_repository)
    }

    /// The address of the reputation token.
    pub fn reputation_token_address(&self) -> (r: Result<Address, Error>)
        ensures
            r == required(self.reputation_token),
    {
        required_address(self.reputation_token)
    }

    /// The address of the VA token.
    pub fn va_token_address(&self) -> (r: Result<Address, Error>)
        ensures
            r == required(self.va_token),
    {
        required_address(self.va_token)
    }

    /// The address of the KYC token.
    pub fn kyc_token_address(&self) -> (r: Result<Address, Error>)
        ensures
            r == required(self.kyc_token),
    {
        required_address(self.kyc_token)
    }

    /// A reference to the variable repository.
    pub fn variable_repository(&self) -> (r: Result<VariableRepositoryContractRef, Error>)
        ensures
            r == match required(self.variable_repository) {
                Ok(a) => Ok(VariableRepositoryContractRef { address: a }),
                Err(e) => Err(e),
            },
    {
        let address = self.variable_repository_address()?;
        Ok(VariableRepositoryContractRef { address })
    }

    /// A reference to the reputation token.
    pub fn reputation_token(&self) -> (r: Result<ReputationContractRef, Error>)
        ensures
            r == match required(self.reputation_token) {
                Ok(a) => Ok(ReputationContractRef { address: a }),
                Err(e) => Err(e),
            },
    {
        let address = self.reputation_token_address()?;
        Ok(ReputationContractRef { address })
    }

    /// A reference to the VA token.
    pub fn va_token(&self) -> (r: Result<VaNftContractRef, Error>)
        ensures
            r == match required(self.va_token) {
                Ok(a) => Ok(VaNftContractRef { address: a }),
                Err(e) => Err(e),
            },
    {
        let address = self.va_token_address()?;
        Ok(VaNftContractRef { address })
    }

    /// A reference to the KYC token.
    pub fn kyc_token(&self) -> (r: Result<KycNftContractRef, Error>)
        ensures
            r == match required(self.kyc_token) {
                Ok(a) => Ok(KycNftContractRef { address: a }),
                Err(e) => Err(e),
            },
    {
        let address = self.kyc_token_address()?;
        Ok(KycNftContractRef { address })
    }
}

} // verus!
