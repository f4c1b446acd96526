//! The reasons for which the wallet refuses a call.

use vstd::prelude::*;

verus! {

/// Why a call was refused. A refused call changes nothing.
#[derive(Clone, Copy, Debug, PartialEq, Eq)]
pub enum WalletError {
    /// `initialize` was called on a wallet that already has its owners.
    AlreadyInitialized,
    /// The owner list is empty, or the threshold is zero or larger than the
    /// number of owners.
    InvalidParameters,
    /// The caller did not prove that it is the identity it names.
    Unauthenticated,
    /// The wallet has no owners yet.
    NotInitialized,
    /// The caller is not one of the owners.
    NotAnOwner,
    /// No transaction has the given identifier.
    TransactionNotFound,
    /// This owner approved this transaction before.
    AlreadyApproved,
    /// The transaction was executed before.
    AlreadyExecuted,
    /// Fewer owners approved the transaction than the threshold asks for.
    InsufficientApprovals,
}

impl WalletError {
    /// The text of `message`, as a sequence of characters.
    pub open spec fn reason(self) -> Seq<char> {
        match self {
            WalletError::AlreadyInitialized => "Already initialized"@,
            WalletError::InvalidParameters => "Invalid parameters"@,
            WalletError::Unauthenticated => "Not authenticated"@,
            WalletError::NotInitialized => "Not initialized"@,
            WalletError::NotAnOwner => "Not an owner"@,
            WalletError::TransactionNotFound => "Transaction not found"@,
            WalletError::AlreadyApproved => "Already approved"@,
            WalletError::AlreadyExecuted => "Already executed"@,
            WalletError::InsufficientApprovals => "Insufficient approvals"@,
        }
    }

    /// A short text that names the reason, for the caller to show or to abort with.
    pub fn message(&self) -> (text: &'static str)
        ensures
            text@ == self.reason(),
    {
        match self {
            WalletError::AlreadyInitialized => "Already initialized",
            WalletError::InvalidParameters => "Invalid parameters",
            WalletError::Unauthenticated => "Not authenticated",
            WalletError::NotInitialized => "Not initialized",
            WalletError::NotAnOwner => "Not an owner",
            WalletError::TransactionNotFound => "Transaction not found",
            WalletError::AlreadyApproved => "Already approved",
            WalletError::AlreadyExecuted => "Already executed",
            WalletError::InsufficientApprovals => "Insufficient approvals",
        }
    }
}

} // verus!
