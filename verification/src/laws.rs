//! What holds of the wallet over any number of calls, proved of the states
//! and calls of `model`.

use crate::error::WalletError;
use crate::model::{Call, WalletState};
use crate::records::{Approvals, TxBook};
use soroban_sdk::Address;
use vstd::prelude::*;
use vstd::set_lib::lemma_len_subset;

verus! {

/// Nothing is wrong with a wallet that nobody has touched.
pub proof fn empty_is_sound()
    ensures
        WalletState::empty().sound(),
{
}

/// The approvals on file for one transaction all come from owners, so there
/// are no more of them than there are owners.
pub proof fn approvers_are_owners(s: WalletState, tx_id: u64)
    requires
        s.sound(),
        s.config is Some,
    ensures
        s.approvers(tx_id).subset_of(s.config.unwrap().owners.to_set()),
        s.approvers(tx_id).finite(),
        s.approvers(tx_id).len() <= s.config.unwrap().owners.len(),
{
    broadcast use vstd::seq_lib::seq_to_set_is_finite;

    let owners = s.config.unwrap().owners;
    lemma_len_subset(s.approvers(tx_id), owners.to_set());
    owners.lemma_cardinality_of_set();
}

/// An owner whose approval of a transaction is not on file yet leaves room
/// in the count: the record's `approvals` is below the number of owners.
pub proof fn approval_fits(s: WalletState, approver: Address, tx_id: u64)
    requires
        s.sound(),
        s.config is Some,
        s.config.unwrap().owners.contains(approver),
        s.transaction(tx_id) is Some,
        !s.has_approved(tx_id, approver),
    ensures
        s.transaction(tx_id).unwrap().approvals < s.config.unwrap().owners.len(),
        s.transaction(tx_id).unwrap().approvals < u32::MAX,
{
    broadcast use vstd::seq_lib::seq_to_set_is_finite;

    let owners = s.config.unwrap().owners;
    approvers_are_owners(s, tx_id);
    lemma_len_subset(s.approvers(tx_id).insert(approver), owners.to_set());
    owners.lemma_cardinality_of_set();
}

/// A call that the wallet admits leaves a sound state sound.
pub proof fn calls_keep_sound(s: WalletState, call: Call)
    requires
        s.sound(),
        s.admits(call),
    ensures
        s.after(call).sound(),
{
    let n = s.after(call);
    if s.apply(call) is Ok {
        match call {
            Call::Initialize { .. } => {},
            Call::Submit { .. } => {
                // No approval is on file for an identifier that was not given out.
                let tx_id = n.tx_count;
                assert forall|key: TxBook| #[trigger]
                    n.transactions.contains_key(key) implies n.sound_at(key) by {
                    assert(n.approvers(key.id()) =~= s.approvers(key.id()));
                    if key == TxBook::Transaction(tx_id) {
                        assert(s.approvers(tx_id) =~= Set::<Address>::empty());
                    }
                }
            },
            Call::Approve { approver, tx_id, .. } => {
                // The new approval counts for its transaction and for no other.
                approval_fits(s, approver, tx_id);
                assert forall|key: TxBook| #[trigger]
                    n.transactions.contains_key(key) implies n.sound_at(key) by {
                    if key == TxBook::Transaction(tx_id) {
                        assert(n.approvers(tx_id) =~= s.approvers(tx_id).insert(approver));
                    } else {
                        assert(n.approvers(key.id()) =~= s.approvers(key.id()));
                    }
                }
            },
            Call::Execute { .. } => {
                assert forall|key: TxBook| #[trigger]
                    n.transactions.contains_key(key) implies n.sound_at(key) by {
                    assert(n.approvers(key.id()) =~= s.approvers(key.id()));
                }
            },
        }
    }
}

/// Any number of calls that the wallet admits leave a sound state sound.
pub proof fn histories_keep_sound(s: WalletState, calls: Seq<Call>)
    requires
        s.sound(),
        s.admits_all(calls),
    ensures
        s.after_all(calls).sound(),
    decreases calls.len(),
{
    if calls.len() > 0 {
        histories_keep_sound(s, calls.drop_last());
        calls_keep_sound(s.after_all(calls.drop_last()), calls.last());
    }
}

/// The wallet is set up once. After a first `initialize` that was let
/// through, or that found the wallet set up already, every further
/// `initialize` is refused with `AlreadyInitialized`, whatever its arguments,
/// and the configuration stays as the first call left it.
pub proof fn initialize_happens_once(
    s: WalletState,
    owners: Seq<Address>,
    required_sigs: u32,
    other_owners: Seq<Address>,
    other_required_sigs: u32,
)
    requires
        s.initialize(owners, required_sigs) != Err::<WalletState, WalletError>(
            WalletError::InvalidParameters,
        ),
    ensures
        ({
            let first = s.after(Call::Initialize { owners, required_sigs });
            let second = Call::Initialize {
                owners: other_owners,
                required_sigs: other_required_sigs,
            };
            &&& first.config is Some
            &&& first.apply(second) == Err::<WalletState, WalletError>(
                WalletError::AlreadyInitialized,
            )
            &&& first.after(second) == first
        }),
{
}

/// No call overwrites the configuration: once there is one, it is the same
/// after every call.
pub proof fn configuration_is_kept(s: WalletState, call: Call)
    requires
        s.config is Some,
    ensures
        s.after(call).config == s.config,
{
}

/// A transaction becomes executed only through `execute_transaction` on
/// it, and only if at that time it has as many approvals as the threshold
/// asks for.
pub proof fn execution_needs_quorum(s: WalletState, call: Call, tx_id: u64)
    requires
        s.transaction(tx_id) is None || !s.transaction(tx_id).unwrap().executed,
        s.after(call).transaction(tx_id) is Some,
        s.after(call).transaction(tx_id).unwrap().executed,
    ensures
        call matches Call::Execute { tx_id: id, .. } && id == tx_id,
        s.config is Some,
        s.transaction(tx_id) is Some,
        s.transaction(tx_id).unwrap().approvals >= s.config.unwrap().required,
{
}

/// An approval counts once: right after `approver`'s approval of a
/// transaction was filed, the same approval is refused with
/// `AlreadyApproved`, and the record keeps its count.
pub proof fn approval_counts_once(s: WalletState, approver: Address, tx_id: u64)
    requires
        s.approve(true, approver, tx_id) is Ok,
    ensures
        ({
            let first = s.approve(true, approver, tx_id).unwrap();
            let again = Call::Approve { authenticated: true, approver, tx_id };
            &&& first.has_approved(tx_id, approver)
            &&& first.apply(again) == Err::<WalletState, WalletError>(WalletError::AlreadyApproved)
            &&& first.after(again) == first
        }),
{
}

/// An approval on file stays on file.
pub proof fn approvals_stay_on_file(s: WalletState, call: Call, mark: Approvals)
    requires
        s.approvals.contains(mark),
    ensures
        s.after(call).approvals.contains(mark),
{
}

/// Once an owner's approval of a transaction is on file, the owner's next
/// approval of that transaction is refused with `AlreadyApproved`, whatever
/// calls were made in between.
pub proof fn approved_before_is_refused(
    s: WalletState,
    approver: Address,
    tx_id: u64,
    calls: Seq<Call>,
)
    requires
        s.sound(),
        s.has_approved(tx_id, approver),
        s.admits_all(calls),
    ensures
        s.after_all(calls).has_approved(tx_id, approver),
        s.after_all(calls).approve(true, approver, tx_id) == Err::<WalletState, WalletError>(
            WalletError::AlreadyApproved,
        ),
    decreases calls.len(),
{
    if calls.len() > 0 {
        approved_before_is_refused(s, approver, tx_id, calls.drop_last());
        approvals_stay_on_file(
            s.after_all(calls.drop_last()),
            calls.last(),
            Approvals::Approval(tx_id, approver),
        );
    }
    histories_keep_sound(s, calls);
}

/// A record only moves forward: over a call it stays on file with its
/// identifier, recipient and amount, its count of approvals does not go down,
/// and once executed it stays executed.
pub proof fn records_only_advance(s: WalletState, call: Call, tx_id: u64)
    requires
        s.sound(),
        s.admits(call),
        s.transaction(tx_id) is Some,
    ensures
        s.after(call).transaction(tx_id) is Some,
        ({
            let before = s.transaction(tx_id).unwrap();
            let after = s.after(call).transaction(tx_id).unwrap();
            &&& after.tx_id == before.tx_id
            &&& after.to == before.to
            &&& after.amount == before.amount
            &&& after.approvals >= before.approvals
            &&& before.executed ==> after.executed
        }),
{
    match call {
        Call::Approve { authenticated, approver, tx_id: id } => {
            if s.apply(call) is Ok {
                approval_fits(s, approver, id);
            }
        },
        _ => {},
    }
}

/// The same over any number of calls: a count of approvals never goes
/// down, and a transaction that is executed is executed for good.
pub proof fn records_only_advance_over_histories(s: WalletState, calls: Seq<Call>, tx_id: u64)
    requires
        s.sound(),
        s.admits_all(calls),
        s.transaction(tx_id) is Some,
    ensures
        s.after_all(calls).transaction(tx_id) is Some,
        ({
            let before = s.transaction(tx_id).unwrap();
            let after = s.after_all(calls).transaction(tx_id).unwrap();
            &&& after.tx_id == before.tx_id
            &&& after.to == before.to
            &&& after.amount == before.amount
            &&& after.approvals >= before.approvals
            &&& before.executed ==> after.executed
        }),
    decreases calls.len(),
{
    if calls.len() > 0 {
        records_only_advance_over_histories(s, calls.drop_last(), tx_id);
        histories_keep_sound(s, calls.drop_last());
        records_only_advance(s.after_all(calls.drop_last()), calls.last(), tx_id);
    }
}

/// Who is not an owner gets nothing done. A call whose caller proved its
/// identity but is not among the owners is refused with `NotAnOwner`, or
/// with `NotInitialized` as long as the wallet has no owners, whatever its
/// other arguments are; and nothing changes.
pub proof fn strangers_are_refused(s: WalletState, call: Call)
    requires
        call.caller() is Some,
        call.authenticated(),
        s.config is Some ==> !s.config.unwrap().owners.contains(call.caller().unwrap()),
    ensures
        s.config is Some ==> s.apply(call) == Err::<WalletState, WalletError>(
            WalletError::NotAnOwner,
        ),
        s.config is None ==> s.apply(call) == Err::<WalletState, WalletError>(
            WalletError::NotInitialized,
        ),
        s.after(call) == s,
{
}

/// A caller that did not prove its identity is refused with
/// `Unauthenticated` before anything else is looked at.
pub proof fn unauthenticated_calls_are_refused(s: WalletState, call: Call)
    requires
        call.caller() is Some,
        !call.authenticated(),
    ensures
        s.apply(call) == Err::<WalletState, WalletError>(WalletError::Unauthenticated),
        s.after(call) == s,
{
}

} // verus!
