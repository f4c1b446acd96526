//! What the wallet keeps: its configuration, one record per proposed
//! transaction, and the keys under which records and approvals are filed.

use soroban_sdk::Address;
use vstd::prelude::*;

verus! {

/// A proposed transfer and how far it has come.
#[derive(Debug, PartialEq, Eq)]
pub struct Transaction {
    /// The identifier the wallet gave the proposal: 1 for the first, 2 for the next.
    pub tx_id: u64,
    /// Who is to receive the amount.
    pub to: Address,
    /// How much is to be moved. The wallet puts no bound on it.
    pub amount: i128,
    /// How many owners have approved so far.
    pub approvals: u32,
    /// Whether the transfer has been certified. Once set it stays set.
    pub executed: bool,
}

/// The key under which a transaction record is filed.
#[derive(Clone, Copy, Debug, PartialEq, Eq)]
pub enum TxBook {
    Transaction(u64),
}

/// The key under which an owner's approval of a transaction is filed. The
/// wallet files nothing but the key: that it is there says that this owner
/// approved this transaction.
#[derive(Debug, PartialEq, Eq)]
pub enum Approvals {
    Approval(u64, Address),
}

/// Who owns the wallet and how many of them must approve a transaction.
#[derive(Debug, PartialEq, Eq)]
pub struct Configuration {
    pub owners: Vec<Address>,
    pub required_sigs: u32,
}

/// A `Configuration` as a mathematical value.
pub struct ConfigurationView {
    pub owners: Seq<Address>,
    pub required: u32,
}

impl View for Configuration {
    type V = ConfigurationView;

    open spec fn view(&self) -> ConfigurationView {
        ConfigurationView { owners: self.owners@, required: self.required_sigs }
    }
}

impl Clone for Transaction {
    fn clone(&self) -> (copy: Transaction)
        ensures
            copy == *self,
    {
        Transaction {
            tx_id: self.tx_id,
            to: self.to.clone(),
            amount: self.amount,
            approvals: self.approvals,
            executed: self.executed,
        }
    }
}

impl Clone for Approvals {
    fn clone(&self) -> (copy: Approvals)
        ensures
            copy == *self,
    {
        match self {
            Approvals::Approval(tx_id, owner) => Approvals::Approval(*tx_id, owner.clone()),
        }
    }
}

impl Clone for Configuration {
    fn clone(&self) -> (copy: Configuration)
        ensures
            copy@ == self@,
    {
        let copy = Configuration { owners: self.owners.clone(), required_sigs: self.required_sigs };
        copy
    }
}

impl ConfigurationView {
    /// The list has an owner, and the threshold asks for at least one of
    /// them and for no more than there are.
    pub open spec fn valid(self) -> bool {
        1 <= self.required <= self.owners.len()
    }
}

impl Transaction {
    /// The record of a proposal that nobody has approved yet.
    pub open spec fn proposed(tx_id: u64, to: Address, amount: i128) -> Transaction {
        Transaction { tx_id, to, amount, approvals: 0, executed: false }
    }

    /// This record with one approval more.
    pub open spec fn approved(self) -> Transaction {
        Transaction { approvals: (self.approvals + 1) as u32, ..self }
    }

    /// This record, marked as executed.
    pub open spec fn certified(self) -> Transaction {
        Transaction { executed: true, ..self }
    }
}

impl TxBook {
    /// The identifier in the key.
    pub open spec fn id(self) -> u64 {
        self->0
    }
}

impl Approvals {
    /// The transaction that was approved.
    pub open spec fn id(self) -> u64 {
        self->0
    }

    /// The owner who approved.
    pub open spec fn owner(self) -> Address {
        self->1
    }
}

} // verus!
