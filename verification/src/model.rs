//! The wallet as a mathematical value, and what each call makes of it.
//!
//! A `WalletState` is everything the wallet has on file. Each of the four
//! calls is a function from the state before the call to the state after it,
//! or to the reason for which the call is refused. `WalletState::sound` says
//! what holds of every state that the calls can reach from the empty one.

use crate::error::WalletError;
use crate::records::{Approvals, ConfigurationView, Transaction, TxBook};
use crate::rules::{approve_refusal, execute_refusal, guard_refusal, initialize_refusal};
use soroban_sdk::Address;
use vstd::prelude::*;

verus! {

/// One call on the wallet, with its arguments.
pub enum Call {
    Initialize { owners: Seq<Address>, required_sigs: u32 },
    Submit { authenticated: bool, proposer: Address, to: Address, amount: i128 },
    Approve { authenticated: bool, approver: Address, tx_id: u64 },
    Execute { authenticated: bool, executor: Address, tx_id: u64 },
}

impl Call {
    /// The caller that the call names. Setting the wallet up names none.
    pub open spec fn caller(self) -> Option<Address> {
        match self {
            Call::Initialize { .. } => None,
            Call::Submit { proposer, .. } => Some(proposer),
            Call::Approve { approver, .. } => Some(approver),
            Call::Execute { executor, .. } => Some(executor),
        }
    }

    /// Whether the caller proved to be the identity that the call names.
    pub open spec fn authenticated(self) -> bool {
        match self {
            Call::Initialize { .. } => true,
            Call::Submit { authenticated, .. } => authenticated,
            Call::Approve { authenticated, .. } => authenticated,
            Call::Execute { authenticated, .. } => authenticated,
        }
    }
}

/// Everything the wallet has on file.
pub struct WalletState {
    /// The owners and the threshold, once the wallet has been set up.
    pub config: Option<ConfigurationView>,
    /// The identifier given out last, 0 as long as none was.
    pub tx_count: u64,
    /// The transaction records, each under its key.
    pub transactions: Map<TxBook, Transaction>,
    /// The approvals on file.
    pub approvals: Set<Approvals>,
}

impl WalletState {
    /// The state of a wallet that nobody has touched.
    pub open spec fn empty() -> WalletState {
        WalletState {
            config: None,
            tx_count: 0,
            transactions: Map::empty(),
            approvals: Set::empty(),
        }
    }

    /// The record on file under `tx_id`, if there is one.
    pub open spec fn transaction(self, tx_id: u64) -> Option<Transaction> {
        if self.transactions.contains_key(TxBook::Transaction(tx_id)) {
            Some(self.transactions[TxBook::Transaction(tx_id)])
        } else {
            None
        }
    }

    /// Whether `owner`'s approval of transaction `tx_id` is on file.
    pub open spec fn has_approved(self, tx_id: u64, owner: Address) -> bool {
        self.approvals.contains(Approvals::Approval(tx_id, owner))
    }

    /// The owners whose approval of transaction `tx_id` is on file.
    pub open spec fn approvers(self, tx_id: u64) -> Set<Address> {
        Set::new(|owner: Address| self.has_approved(tx_id, owner))
    }

    /// The state after `initialize`, or why the call is refused.
    pub open spec fn initialize(self, owners: Seq<Address>, required_sigs: u32) -> Result<
        WalletState,
        WalletError,
    > {
        match initialize_refusal(self.config is Some, owners.len(), required_sigs) {
            Some(e) => Err(e),
            None => Ok(
                WalletState {
                    config: Some(ConfigurationView { owners, required: required_sigs }),
                    tx_count: 0,
                    ..self
                },
            ),
        }
    }

    /// The state after `submit_transaction`, or why the call is refused. The
    /// new transaction's identifier is the new `tx_count`.
    pub open spec fn submit(self, authenticated: bool, proposer: Address, to: Address, amount: i128)
        -> Result<WalletState, WalletError> {
        match guard_refusal(authenticated, self.config, proposer) {
            Some(e) => Err(e),
            None => {
                let tx_id = (self.tx_count + 1) as u64;
                Ok(
                    WalletState {
                        tx_count: tx_id,
                        transactions: self.transactions.insert(
                            TxBook::Transaction(tx_id),
                            Transaction::proposed(tx_id, to, amount),
                        ),
                        ..self
                    },
                )
            },
        }
    }

    /// The state after `approve_transaction`, or why the call is refused.
    pub open spec fn approve(self, authenticated: bool, approver: Address, tx_id: u64) -> Result<
        WalletState,
        WalletError,
    > {
        match approve_refusal(
            authenticated,
            self.config,
            approver,
            self.has_approved(tx_id, approver),
            self.transaction(tx_id),
        ) {
            Some(e) => Err(e),
            None => Ok(
                WalletState {
                    transactions: self.transactions.insert(
                        TxBook::Transaction(tx_id),
                        self.transactions[TxBook::Transaction(tx_id)].approved(),
                    ),
                    approvals: self.approvals.insert(Approvals::Approval(tx_id, approver)),
                    ..self
                },
            ),
        }
    }

    /// The state after `execute_transaction`, or why the call is refused.
    pub open spec fn execute(self, authenticated: bool, executor: Address, tx_id: u64) -> Result<
        WalletState,
        WalletError,
    > {
        match execute_refusal(authenticated, self.config, executor, self.transaction(tx_id)) {
            Some(e) => Err(e),
            None => Ok(
                WalletState {
                    transactions: self.transactions.insert(
                        TxBook::Transaction(tx_id),
                        self.transactions[TxBook::Transaction(tx_id)].certified(),
                    ),
                    ..self
                },
            ),
        }
    }

    /// What `call` makes of this state: the state after it, or why it is
    /// refused.
    pub open spec fn apply(self, call: Call) -> Result<WalletState, WalletError> {
        match call {
            Call::Initialize { owners, required_sigs } => self.initialize(owners, required_sigs),
            Call::Submit { authenticated, proposer, to, amount } => self.submit(
                authenticated,
                proposer,
                to,
                amount,
            ),
            Call::Approve { authenticated, approver, tx_id } => self.approve(
                authenticated,
                approver,
                tx_id,
            ),
            Call::Execute { authenticated, executor, tx_id } => self.execute(
                authenticated,
                executor,
                tx_id,
            ),
        }
    }

    /// The state after `call`. A refused call leaves the state as it was.
    pub open spec fn after(self, call: Call) -> WalletState {
        match self.apply(call) {
            Ok(next) => next,
            Err(_) => self,
        }
    }

    /// Whether the numbers of `call` fit the machine: an owner list is no
    /// longer than a `u32` can count, and there is an identifier left to give
    /// out.
    pub open spec fn admits(self, call: Call) -> bool {
        match call {
            Call::Initialize { owners, required_sigs } => owners.len() <= u32::MAX,
            Call::Submit { authenticated, proposer, to, amount } => self.tx_count < u64::MAX,
            _ => true,
        }
    }

    /// The state after all of `calls`, made one after the other.
    pub open spec fn after_all(self, calls: Seq<Call>) -> WalletState
        decreases calls.len(),
    {
        if calls.len() == 0 {
            self
        } else {
            self.after_all(calls.drop_last()).after(calls.last())
        }
    }

    /// Whether the numbers of each of `calls` fit the machine at the time
    /// the call is made.
    pub open spec fn admits_all(self, calls: Seq<Call>) -> bool
        decreases calls.len(),
    {
        calls.len() == 0 || (self.admits_all(calls.drop_last()) && self.after_all(
            calls.drop_last(),
        ).admits(calls.last()))
    }

    /// What holds of the state of a wallet, whatever calls were made on it.
    pub open spec fn sound(self) -> bool {
        &&& match self.config {
            Some(c) => c.valid() && c.owners.len() <= u32::MAX,
            None => self.tx_count == 0 && self.approvals == Set::<Approvals>::empty(),
        }
        &&& forall|key: TxBook| #[trigger]
            self.transactions.contains_key(key) <==> 1 <= key.id() <= self.tx_count
        &&& forall|key: TxBook| #[trigger]
            self.transactions.contains_key(key) ==> self.sound_at(key)
        &&& forall|mark: Approvals| #[trigger]
            self.approvals.contains(mark) ==> self.config is Some
                && self.config.unwrap().owners.contains(mark.owner())
                && self.transactions.contains_key(TxBook::Transaction(mark.id()))
    }

    /// What holds of the record on file under `key`: it carries the key's
    /// identifier, it counts the approvals on file for it, and it is executed
    /// only with the threshold met.
    pub open spec fn sound_at(self, key: TxBook) -> bool {
        let t = self.transactions[key];
        &&& t.tx_id == key.id()
        &&& self.approvers(key.id()).finite()
        &&& t.approvals == self.approvers(key.id()).len()
        &&& t.executed ==> self.config is Some && t.approvals >= self.config.unwrap().required
    }
}

} // verus!
