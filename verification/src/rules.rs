//! The wallet's rules, one call at a time. Each function takes what the call
//! needs to know of the stored state, decides whether the call is allowed, and
//! hands back the record to store. None of them keeps state of its own, so a
//! host that stores the wallet elsewhere can apply the same rules to what it
//! has loaded.

use crate::address::same_address;
use crate::error::WalletError;
use crate::records::{Configuration, ConfigurationView, Transaction};
use soroban_sdk::Address;
use vstd::prelude::*;

verus! {

/// The stored configuration, if there is one, as a mathematical value.
pub open spec fn stored_config(config: Option<&Configuration>) -> Option<ConfigurationView> {
    match config {
        Some(c) => Some(c@),
        None => None,
    }
}

/// The identifier given out last: what is stored, and 0 where nothing is
/// stored yet.
pub open spec fn count_of(tx_count: Option<u64>) -> u64 {
    match tx_count {
        Some(count) => count,
        None => 0,
    }
}

/// The record on file, if there is one.
pub open spec fn record_of(transaction: Option<&Transaction>) -> Option<Transaction> {
    match transaction {
        Some(t) => Some(*t),
        None => None,
    }
}

/// Why `initialize` is refused, if it is: the wallet has its owners already,
/// or the numbers do not fit.
pub open spec fn initialize_refusal(
    initialized: bool,
    owner_count: nat,
    required_sigs: u32,
) -> Option<WalletError> {
    if initialized {
        Some(WalletError::AlreadyInitialized)
    } else if owner_count == 0 || required_sigs == 0 || required_sigs > owner_count {
        Some(WalletError::InvalidParameters)
    } else {
        None
    }
}

/// Why the guard turns `who` away, if it does. The proof of identity is
/// asked for first, then the configuration, then the place among the owners.
pub open spec fn guard_refusal(
    authenticated: bool,
    config: Option<ConfigurationView>,
    who: Address,
) -> Option<WalletError> {
    if !authenticated {
        Some(WalletError::Unauthenticated)
    } else if config is None {
        Some(WalletError::NotInitialized)
    } else if !config.unwrap().owners.contains(who) {
        Some(WalletError::NotAnOwner)
    } else {
        None
    }
}

/// Why an approval is refused, if it is. `already_approved` says whether
/// this owner's approval of this transaction is on file, `transaction` is the
/// record on file under the identifier, if any.
pub open spec fn approve_refusal(
    authenticated: bool,
    config: Option<ConfigurationView>,
    approver: Address,
    already_approved: bool,
    transaction: Option<Transaction>,
) -> Option<WalletError> {
    if guard_refusal(authenticated, config, approver) is Some {
        guard_refusal(authenticated, config, approver)
    } else if already_approved {
        Some(WalletError::AlreadyApproved)
    } else if transaction is None {
        Some(WalletError::TransactionNotFound)
    } else if transaction.unwrap().executed {
        Some(WalletError::AlreadyExecuted)
    } else {
        None
    }
}

/// Why an execution is refused, if it is.
pub open spec fn execute_refusal(
    authenticated: bool,
    config: Option<ConfigurationView>,
    executor: Address,
    transaction: Option<Transaction>,
) -> Option<WalletError> {
    if guard_refusal(authenticated, config, executor) is Some {
        guard_refusal(authenticated, config, executor)
    } else if transaction is None {
        Some(WalletError::TransactionNotFound)
    } else if transaction.unwrap().executed {
        Some(WalletError::AlreadyExecuted)
    } else if transaction.unwrap().approvals < config.unwrap().required {
        Some(WalletError::InsufficientApprovals)
    } else {
        None
    }
}

/// Whether `who` is on the list, which is gone through from its start.
pub fn is_owner(owners: &Vec<Address>, who: &Address) -> (found: bool)
    ensures
        found == owners@.contains(*who),
{
    let mut i: usize = 0;
    while i < owners.len()
        invariant
            i <= owners.len(),
            forall|j: int| 0 <= j < i ==> owners@[j] != *who,
        decreases owners.len() - i,
    {
        if same_address(&owners[i], who) {
            return true;
        }
        i = i + 1;
    }
    false
}

/// Decides whether a wallet may be set up with `owner_count` owners of whom
/// `required_sigs` must approve. `initialized` says whether it has been set
/// up before.
pub fn check_initialize(initialized: bool, owner_count: u32, required_sigs: u32) -> (r: Result<
    (),
    WalletError,
>)
    ensures
        match initialize_refusal(initialized, owner_count as nat, required_sigs) {
            Some(e) => r == Err::<(), WalletError>(e),
            None => r == Ok::<(), WalletError>(()),
        },
{
    if initialized {
        Err(WalletError::AlreadyInitialized)
    } else if owner_count == 0 || required_sigs == 0 || required_sigs > owner_count {
        Err(WalletError::InvalidParameters)
    } else {
        Ok(())
    }
}

/// The guard in front of every call that names a caller. `authenticated` is
/// the answer of whoever checks the caller's proof of identity.
pub fn require_owner(authenticated: bool, config: Option<&Configuration>, who: &Address) -> (r:
    Result<(), WalletError>)
    ensures
        match guard_refusal(authenticated, stored_config(config), *who) {
            Some(e) => r == Err::<(), WalletError>(e),
            None => r == Ok::<(), WalletError>(()),
        },
{
    if !authenticated {
        return Err(WalletError::Unauthenticated);
    }
    match config {
        None => Err(WalletError::NotInitialized),
        Some(c) => {
            if is_owner(&c.owners, who) {
                Ok(())
            } else {
                Err(WalletError::NotAnOwner)
            }
        },
    }
}

/// Proposes a transfer of `amount` to `to`. `tx_count` is the stored
/// identifier that was given out last, if one is stored. The new record
/// carries the next one, which is also the count to store.
pub fn propose(
    authenticated: bool,
    config: Option<&Configuration>,
    proposer: &Address,
    tx_count: Option<u64>,
    to: Address,
    amount: i128,
) -> (r: Result<Transaction, WalletError>)
    requires
        count_of(tx_count) < u64::MAX,
    ensures
        match guard_refusal(authenticated, stored_config(config), *proposer) {
            Some(e) => r == Err::<Transaction, WalletError>(e),
            None => r == Ok::<Transaction, WalletError>(
                Transaction::proposed((count_of(tx_count) + 1) as u64, to, amount),
            ),
        },
{
    match require_owner(authenticated, config, proposer) {
        Err(e) => Err(e),
        Ok(()) => {
            let last: u64 = match tx_count {
                Some(count) => count,
                None => 0,
            };
            Ok(Transaction { tx_id: last + 1, to, amount, approvals: 0, executed: false })
        },
    }
}

/// Records the approval of `transaction` by `approver`. `already_approved`
/// says whether this owner's approval of it is on file.
pub fn approve(
    authenticated: bool,
    config: Option<&Configuration>,
    approver: &Address,
    already_approved: bool,
    transaction: Option<&Transaction>,
) -> (r: Result<Transaction, WalletError>)
    requires
        approve_refusal(
            authenticated,
            stored_config(config),
            *approver,
            already_approved,
            record_of(transaction),
        ) is None ==> transaction.unwrap().approvals < u32::MAX,
    ensures
        match approve_refusal(
            authenticated,
            stored_config(config),
            *approver,
            already_approved,
            record_of(transaction),
        ) {
            Some(e) => r == Err::<Transaction, WalletError>(e),
            None => r == Ok::<Transaction, WalletError>(transaction.unwrap().approved()),
        },
{
    match require_owner(authenticated, config, approver) {
        Err(e) => { return Err(e); },
        Ok(()) => {},
    }
    if already_approved {
        return Err(WalletError::AlreadyApproved);
    }
    match transaction {
        None => Err(WalletError::TransactionNotFound),
        Some(t) => {
            if t.executed {
                Err(WalletError::AlreadyExecuted)
            } else {
                Ok(
                    Transaction {
                        tx_id: t.tx_id,
                        to: t.to.clone(),
                        amount: t.amount,
                        approvals: t.approvals + 1,
                        executed: t.executed,
                    },
                )
            }
        },
    }
}

/// Certifies `transaction` once enough owners have approved it. The
/// executor may be any owner, whether or not it proposed or approved.
pub fn execute(
    authenticated: bool,
    config: Option<&Configuration>,
    executor: &Address,
    transaction: Option<&Transaction>,
) -> (r: Result<Transaction, WalletError>)
    ensures
        match execute_refusal(
            authenticated,
            stored_config(config),
            *executor,
            record_of(transaction),
        ) {
            Some(e) => r == Err::<Transaction, WalletError>(e),
            None => r == Ok::<Transaction, WalletError>(transaction.unwrap().certified()),
        },
        r is Ok ==> config is Some && transaction is Some && transaction.unwrap().approvals
            >= config.unwrap().required_sigs,
{
    match require_owner(authenticated, config, executor) {
        Err(e) => { return Err(e); },
        Ok(()) => {},
    }
    let required_sigs: u32 = config.unwrap().required_sigs;
    match transaction {
        None => Err(WalletError::TransactionNotFound),
        Some(t) => {
            if t.executed {
                Err(WalletError::AlreadyExecuted)
            } else if t.approvals < required_sigs {
                Err(WalletError::InsufficientApprovals)
            } else {
                Ok(
                    Transaction {
                        tx_id: t.tx_id,
                        to: t.to.clone(),
                        amount: t.amount,
                        approvals: t.approvals,
                        executed: true,
                    },
                )
            }
        },
    }
}

} // verus!
