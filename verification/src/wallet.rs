//! The wallet itself: the four calls on a store that it keeps in memory.

use crate::address::same_address;
use crate::error::WalletError;
use crate::laws::{approval_fits, calls_keep_sound};
use crate::model::{Call, WalletState};
use crate::records::{Approvals, Configuration, Transaction, TxBook};
use crate::rules::{approve, check_initialize, execute, propose, stored_config};
use soroban_sdk::Address;
use vstd::prelude::*;

verus! {

/// A wallet that several owners control together. Any owner may propose a
/// transfer; it is certified once as many owners as the threshold asks for
/// have approved it.
pub struct MultiSigWallet {
    config: Option<Configuration>,
    tx_count: u64,
    /// The records in the order of their identifiers: the one with
    /// identifier `n` stands at index `n - 1`.
    transactions: Vec<Transaction>,
    approvals: Vec<Approvals>,
}

impl View for MultiSigWallet {
    type V = WalletState;

    closed spec fn view(&self) -> WalletState {
        WalletState {
            config: match self.config {
                Some(c) => Some(c@),
                None => None,
            },
            tx_count: self.tx_count,
            transactions: Map::new(
                |key: TxBook| 1 <= key.id() <= self.transactions@.len(),
                |key: TxBook| self.transactions@[key.id() - 1],
            ),
            approvals: self.approvals@.to_set(),
        }
    }
}

impl MultiSigWallet {
    /// The store is laid out as the calls leave it: one record for each
    /// identifier given out, and no approval filed twice.
    pub closed spec fn filed(&self) -> bool {
        &&& self.tx_count == self.transactions@.len()
        &&& self.approvals@.no_duplicates()
    }

    /// Holds of every wallet that `new` made, after any calls.
    pub open spec fn wf(&self) -> bool {
        self.filed() && self@.sound()
    }

    /// The approvals on file, in the order in which they were filed.
    pub closed spec fn filed_approvals(&self) -> Seq<Approvals> {
        self.approvals@
    }

    /// No approval is on file twice: each owner's approval of each
    /// transaction is kept once at most.
    pub proof fn no_approval_is_filed_twice(&self)
        requires
            self.wf(),
        ensures
            self.filed_approvals().no_duplicates(),
            self.filed_approvals().to_set() == self@.approvals,
    {
    }

    /// A wallet without owners and without transactions.
    pub fn new() -> (wallet: MultiSigWallet)
        ensures
            wallet.wf(),
            wallet@ == WalletState::empty(),
    {
        let wallet = MultiSigWallet {
            config: None,
            tx_count: 0,
            transactions: Vec::new(),
            approvals: Vec::new(),
        };
        assert(wallet@.transactions =~= Map::<TxBook, Transaction>::empty());
        assert(wallet@.approvals =~= Set::<Approvals>::empty());
        wallet
    }

    /// Sets the wallet up with its owners and with the number of approvals
    /// that a transaction needs. This can be done once.
    pub fn initialize(&mut self, owners: Vec<Address>, required_sigs: u32) -> (r: Result<
        (),
        WalletError,
    >)
        requires
            old(self).wf(),
            owners@.len() <= u32::MAX,
        ensures
            final(self).wf(),
            match old(self)@.initialize(owners@, required_sigs) {
                Ok(next) => r is Ok && final(self)@ == next,
                Err(e) => r == Err::<(), WalletError>(e) && final(self)@ == old(self)@,
            },
    {
        let owner_count: u32 = owners.len() as u32;
        match check_initialize(self.config.is_some(), owner_count, required_sigs) {
            Err(e) => Err(e),
            Ok(()) => {
                proof {
                    calls_keep_sound(
                        old(self)@,
                        Call::Initialize { owners: owners@, required_sigs },
                    );
                }
                self.config = Some(Configuration { owners, required_sigs });
                self.tx_count = 0;
                Ok(())
            },
        }
    }

    /// Proposes a transfer of `amount` to `to` and hands back the
    /// identifier of the new transaction.
    pub fn submit_transaction(
        &mut self,
        authenticated: bool,
        proposer: &Address,
        to: Address,
        amount: i128,
    ) -> (r: Result<u64, WalletError>)
        requires
            old(self).wf(),
            old(self)@.tx_count < u64::MAX,
        ensures
            final(self).wf(),
            match old(self)@.submit(authenticated, *proposer, to, amount) {
                Ok(next) => r == Ok::<u64, WalletError>(next.tx_count) && final(self)@ == next,
                Err(e) => r == Err::<u64, WalletError>(e) && final(self)@ == old(self)@,
            },
    {
        match propose(
            authenticated,
            self.config.as_ref(),
            proposer,
            Some(self.tx_count),
            to,
            amount,
        ) {
            Err(e) => Err(e),
            Ok(transaction) => {
                proof {
                    calls_keep_sound(
                        old(self)@,
                        Call::Submit { authenticated, proposer: *proposer, to, amount },
                    );
                }
                let tx_id = transaction.tx_id;
                self.transactions.push(transaction);
                self.tx_count = tx_id;
                assert(self@.transactions =~= old(self)@.transactions.insert(
                    TxBook::Transaction(tx_id),
                    transaction,
                ));
                Ok(tx_id)
            },
        }
    }

    /// Files `approver`'s approval of transaction `tx_id`.
    pub fn approve_transaction(
        &mut self,
        authenticated: bool,
        approver: &Address,
        tx_id: u64,
    ) -> (r: Result<(), WalletError>)
        requires
            old(self).wf(),
        ensures
            final(self).wf(),
            match old(self)@.approve(authenticated, *approver, tx_id) {
                Ok(next) => r is Ok && final(self)@ == next,
                Err(e) => r == Err::<(), WalletError>(e) && final(self)@ == old(self)@,
            },
    {
        let already_approved = self.approved_by(tx_id, approver);
        let place = self.place_of(tx_id);
        let on_file = match place {
            Some(index) => Some(&self.transactions[index]),
            None => None,
        };
        proof {
            if old(self)@.approve(authenticated, *approver, tx_id) is Ok {
                approval_fits(old(self)@, *approver, tx_id);
            }
        }
        match approve(authenticated, self.config.as_ref(), approver, already_approved, on_file) {
            Err(e) => Err(e),
            Ok(transaction) => {
                proof {
                    calls_keep_sound(
                        old(self)@,
                        Call::Approve { authenticated, approver: *approver, tx_id },
                    );
                }
                let mark = Approvals::Approval(tx_id, approver.clone());
                self.transactions.set(place.unwrap(), transaction);
                self.approvals.push(mark);
                proof {
                    old(self).approvals@.lemma_push_to_set_commute(mark);
                    assert(self@.transactions =~= old(self)@.transactions.insert(
                        TxBook::Transaction(tx_id),
                        transaction,
                    ));
                }
                Ok(())
            },
        }
    }

    /// Certifies transaction `tx_id`, which any owner may ask for once
    /// enough owners have approved it. The wallet moves nothing itself: the
    /// record says from now on that the transfer is authorized.
    pub fn execute_transaction(
        &mut self,
        authenticated: bool,
        executor: &Address,
        tx_id: u64,
    ) -> (r: Result<(), WalletError>)
        requires
            old(self).wf(),
        ensures
            final(self).wf(),
            match old(self)@.execute(authenticated, *executor, tx_id) {
                Ok(next) => r is Ok && final(self)@ == next,
                Err(e) => r == Err::<(), WalletError>(e) && final(self)@ == old(self)@,
            },
            r is Ok ==> old(self)@.config is Some && old(self)@.transaction(tx_id) is Some
                && old(self)@.transaction(tx_id).unwrap().approvals
                >= old(self)@.config.unwrap().required,
    {
        let place = self.place_of(tx_id);
        let on_file = match place {
            Some(index) => Some(&self.transactions[index]),
            None => None,
        };
        match execute(authenticated, self.config.as_ref(), executor, on_file) {
            Err(e) => Err(e),
            Ok(transaction) => {
                proof {
                    calls_keep_sound(
                        old(self)@,
                        Call::Execute { authenticated, executor: *executor, tx_id },
                    );
                }
                self.transactions.set(place.unwrap(), transaction);
                assert(self@.transactions =~= old(self)@.transactions.insert(
                    TxBook::Transaction(tx_id),
                    transaction,
                ));
                Ok(())
            },
        }
    }

    /// Whether the wallet has been set up.
    pub fn is_initialized(&self) -> (yes: bool)
        ensures
            yes == (self@.config is Some),
    {
        self.config.is_some()
    }

    /// The owners and the threshold, once the wallet has been set up.
    pub fn configuration(&self) -> (config: Option<&Configuration>)
        ensures
            stored_config(config) == self@.config,
    {
        self.config.as_ref()
    }

    /// The identifier given out last, 0 as long as none was.
    pub fn tx_count(&self) -> (count: u64)
        ensures
            count == self@.tx_count,
    {
        self.tx_count
    }

    /// The record on file under `key`, if there is one.
    pub fn transaction(&self, key: &TxBook) -> (on_file: Option<&Transaction>)
        ensures
            on_file is Some <==> self@.transactions.contains_key(*key),
            on_file matches Some(t) ==> *t == self@.transactions[*key],
    {
        match key {
            TxBook::Transaction(tx_id) => {
                match self.place_of(*tx_id) {
                    Some(index) => Some(&self.transactions[index]),
                    None => None,
                }
            },
        }
    }

    /// Whether the approval with this key is on file.
    pub fn has_approval(&self, key: &Approvals) -> (on_file: bool)
        ensures
            on_file == self@.approvals.contains(*key),
    {
        match key {
            Approvals::Approval(tx_id, owner) => self.approved_by(*tx_id, owner),
        }
    }

    /// Where the record with identifier `tx_id` stands, if there is one.
    fn place_of(&self, tx_id: u64) -> (place: Option<usize>)
        ensures
            place is Some <==> self@.transactions.contains_key(TxBook::Transaction(tx_id)),
            place matches Some(index) ==> index == tx_id - 1 && index < self.transactions@.len(),
    {
        if 1 <= tx_id && tx_id - 1 < self.transactions.len() as u64 {
            Some((tx_id - 1) as usize)
        } else {
            None
        }
    }

    /// Whether `owner`'s approval of transaction `tx_id` is on file.
    fn approved_by(&self, tx_id: u64, owner: &Address) -> (on_file: bool)
        ensures
            on_file == self@.has_approved(tx_id, *owner),
    {
        let mut i: usize = 0;
        while i < self.approvals.len()
            invariant
                i <= self.approvals.len(),
                forall|j: int|
                    0 <= j < i ==> self.approvals@[j] != Approvals::Approval(tx_id, *owner),
            decreases self.approvals.len() - i,
        {
            match &self.approvals[i] {
                Approvals::Approval(id, who) => {
                    if *id == tx_id && same_address(who, owner) {
                        return true;
                    }
                },
            }
            i = i + 1;
        }
        false
    }
}

} // verus!
