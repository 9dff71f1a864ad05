//! The typed failures that the three operations report.

use vstd::prelude::*;

verus! {

/// Every way an operation of this library can fail.
///
/// `AlreadyInitialized` and `ContractRenounced` are state-precondition
/// violations; `Unauthorized` and `InvalidTaxWallet` are authorization
/// violations; `MathOverflow` covers the checked amount arithmetic of a
/// transfer.
///
/// Ledger-level failures (insufficient balance, a signer that does not own
/// the source account) belong to the external ledger that executes a
/// transfer plan; they are the host's to report and never arise here.
#[derive(Clone, Copy, Debug, PartialEq, Eq, Structural)]
pub enum ErrorCode {
    /// The fixed configuration location is already occupied.
    AlreadyInitialized,
    /// Administrative control was renounced; transfers are disabled forever.
    ContractRenounced,
    /// The caller is not the stored authority.
    Unauthorized,
    /// The supplied tax account is not the configured tax destination.
    InvalidTaxWallet,
    /// The amount arithmetic would overflow or underflow.
    MathOverflow,
}

impl ErrorCode {
    /// A short human-readable description of the failure.
    pub fn message(&self) -> (r: &'static str)
        ensures
            r@ == self.message_spec(),
    {
        match self {
            ErrorCode::AlreadyInitialized => "Already initialized",
            ErrorCode::ContractRenounced => "Contract has been renounced",
            ErrorCode::Unauthorized => "Unauthorized",
            ErrorCode::InvalidTaxWallet => "Invalid tax wallet",
            ErrorCode::MathOverflow => "Math overflow",
        }
    }

    /// What `message` returns for each variant.
    pub open spec fn message_spec(&self) -> Seq<char> {
        match self {
            ErrorCode::AlreadyInitialized => "Already initialized"@,
            ErrorCode::ContractRenounced => "Contract has been renounced"@,
            ErrorCode::Unauthorized => "Unauthorized"@,
            ErrorCode::InvalidTaxWallet => "Invalid tax wallet"@,
            ErrorCode::MathOverflow => "Math overflow"@,
        }
    }
}

} // verus!
