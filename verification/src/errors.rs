//! Failure conditions of the ledger's mutating operations.
//!
//! Every error is a precondition failure detected synchronously; a failed
//! operation leaves the whole contract state unchanged, realising the
//! all-or-nothing call semantics the design relies on.

use vstd::prelude::*;

verus! {

/// Why a mutating operation was rejected.
#[derive(Clone, Copy, PartialEq, Eq, Structural, Debug)]
pub enum ContractError {
    /// A token with the supplied identifier already exists.
    DuplicateIdentifier,
    /// The attached deposit is below the computed requirement, or does
    /// not match the configured price exactly where exact matching is
    /// enforced.
    InsufficientDeposit,
    /// An owner-restricted operation was called by another account.
    Unauthorized,
    /// The named area does not exist.
    NotFound,
    /// The area's sale window has not opened yet.
    NotYetOpen,
    /// The area's sale window has already closed.
    WindowClosed,
    /// The area has no units left to sell.
    SoldOut,
}

impl ContractError {
    /// A short human-readable description of the error.
    pub fn message(&self) -> (m: &'static str)
        ensures
            m@ == self.spec_message(),
    {
        match self {
            ContractError::DuplicateIdentifier => "Token already exists",
            ContractError::InsufficientDeposit => "Deposit is insufficient",
            ContractError::Unauthorized => "Caller is not owner.",
            ContractError::NotFound => "Area no exist.",
            ContractError::NotYetOpen => "This area has not started selling lands yet",
            ContractError::WindowClosed => "This area has ended lands sales",
            ContractError::SoldOut => "All lands are sold out",
        }
    }

    /// The description `message` returns for each variant.
    pub open spec fn spec_message(self) -> Seq<char> {
        match self {
            ContractError::DuplicateIdentifier => "Token already exists"@,
            ContractError::InsufficientDeposit => "Deposit is insufficient"@,
            ContractError::Unauthorized => "Caller is not owner."@,
            ContractError::NotFound => "Area no exist."@,
            ContractError::NotYetOpen => "This area has not started selling lands yet"@,
            ContractError::WindowClosed => "This area has ended lands sales"@,
            ContractError::SoldOut => "All lands are sold out"@,
        }
    }
}

} // verus!
