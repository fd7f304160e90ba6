//! The ways in which an operation fails. A failed operation leaves the state
//! as it found it.

use vstd::prelude::*;

verus! {

/// The failure of an operation.
#[derive(Clone, Copy, Debug, PartialEq, Eq, Structural)]
pub enum ContractError {
    /// The caller is not the administrator, or not the wallet that the
    /// operation is reserved for.
    Unauthorized,
    /// No funds came with a call that needs them; with a deposit, also funds
    /// of another denomination or an amount of zero.
    EmptyBalance,
    /// The funds that came with the call are not the price.
    InsufficientFund,
    /// No further token may be minted.
    MintLimitReached,
    /// Nothing is recorded under the key asked for.
    NotFound,
    /// The price that the caller expected is not the configured one.
    PriceMismatch,
    /// An amount would leave the range of 128 bits, or a counter or a product
    /// number that of 32 bits.
    ArithmeticFault,
}

/// The kinds of failure that callers tell apart.
#[derive(Clone, Copy, Debug, PartialEq, Eq, Structural)]
pub enum ErrorKind {
    Unauthorized,
    NotFound,
    InvalidFunds,
    MintLimitReached,
    ArithmeticFault,
}

impl ContractError {
    /// The kind of this failure.
    pub open spec fn spec_kind(self) -> ErrorKind {
        match self {
            ContractError::Unauthorized => ErrorKind::Unauthorized,
            ContractError::EmptyBalance => ErrorKind::InvalidFunds,
            ContractError::InsufficientFund => ErrorKind::InvalidFunds,
            ContractError::MintLimitReached => ErrorKind::MintLimitReached,
            ContractError::NotFound => ErrorKind::NotFound,
            ContractError::PriceMismatch => ErrorKind::InvalidFunds,
            ContractError::ArithmeticFault => ErrorKind::ArithmeticFault,
        }
    }

    /// The name under which this failure is reported.
    pub open spec fn spec_name(self) -> Seq<char> {
        match self {
            ContractError::Unauthorized => "Unauthorized"@,
            ContractError::EmptyBalance => "EmptyBalance"@,
            ContractError::InsufficientFund => "InsufficientFund"@,
            ContractError::MintLimitReached => "MintLimitReached"@,
            ContractError::NotFound => "NotFound"@,
            ContractError::PriceMismatch => "PriceMismatch"@,
            ContractError::ArithmeticFault => "ArithmeticFault"@,
        }
    }

    /// The kind of this failure.
    #[verifier::when_used_as_spec(spec_kind)]
    pub fn kind(self) -> (kind: ErrorKind)
        ensures
            kind == self.spec_kind(),
    {
        match self {
            ContractError::Unauthorized => ErrorKind::Unauthorized,
            ContractError::EmptyBalance => ErrorKind::InvalidFunds,
            ContractError::InsufficientFund => ErrorKind::InvalidFunds,
            ContractError::MintLimitReached => ErrorKind::MintLimitReached,
            ContractError::NotFound => ErrorKind::NotFound,
            ContractError::PriceMismatch => ErrorKind::InvalidFunds,
            ContractError::ArithmeticFault => ErrorKind::ArithmeticFault,
        }
    }

    /// The name under which this failure is reported.
    pub fn to_string(&self) -> (name: String)
        ensures
            name@ == self.spec_name(),
    {
        match self {
            ContractError::Unauthorized => "Unauthorized".to_owned(),
            ContractError::EmptyBalance => "EmptyBalance".to_owned(),
            ContractError::InsufficientFund => "InsufficientFund".to_owned(),
            ContractError::MintLimitReached => "MintLimitReached".to_owned(),
            ContractError::NotFound => "NotFound".to_owned(),
            ContractError::PriceMismatch => "PriceMismatch".to_owned(),
            ContractError::ArithmeticFault => "ArithmeticFault".to_owned(),
        }
    }
}

} // verus!
