//! What holds of the wallet over several calls, on chosen values, and the
//! edges of each call.

use multisig_wallet::error::WalletError;
use multisig_wallet::records::{Approvals, Configuration, Transaction, TxBook};
use multisig_wallet::wallet::MultiSigWallet;
use soroban_sdk::testutils::{Address as _, EnvTestConfig};
use soroban_sdk::{Address, Env};

const ALICE: &str = "GAAQCAIBAEAQCAIBAEAQCAIBAEAQCAIBAEAQCAIBAEAQCAIBAEAQDZ7H";
const BOB: &str = "GABAEAQCAIBAEAQCAIBAEAQCAIBAEAQCAIBAEAQCAIBAEAQCAIBAEJXA";
const CAROL: &str = "GABQGAYDAMBQGAYDAMBQGAYDAMBQGAYDAMBQGAYDAMBQGAYDAMBQHGPC";
const DAVE: &str = "GACAIBAEAQCAIBAEAQCAIBAEAQCAIBAEAQCAIBAEAQCAIBAEAQCAJJHP";
const VAULT: &str = "CAEQSCIJBEEQSCIJBEEQSCIJBEEQSCIJBEEQSCIJBEEQSCIJBEEQTD2L";

fn plain_env() -> Env {
    Env::new_with_config(EnvTestConfig { capture_snapshot_at_drop: false })
}

fn named(env: &Env, key: &str) -> Address {
    Address::from_str(env, key)
}

fn two_of_three(env: &Env) -> MultiSigWallet {
    let mut wallet = MultiSigWallet::new();
    wallet
        .initialize(vec![named(env, ALICE), named(env, BOB), named(env, CAROL)], 2)
        .unwrap();
    wallet
}

#[test]
fn new_wallet_is_empty() {
    let env = plain_env();
    let wallet = MultiSigWallet::new();
    assert!(!wallet.is_initialized());
    assert!(wallet.configuration().is_none());
    assert_eq!(wallet.tx_count(), 0);
    assert!(wallet.transaction(&TxBook::Transaction(0)).is_none());
    assert!(wallet.transaction(&TxBook::Transaction(1)).is_none());
    assert!(!wallet.has_approval(&Approvals::Approval(1, named(&env, ALICE))));
}

#[test]
fn initialize_files_owners_and_threshold() {
    let env = plain_env();
    let wallet = two_of_three(&env);
    assert!(wallet.is_initialized());
    assert_eq!(wallet.tx_count(), 0);
    let expected = Configuration {
        owners: vec![named(&env, ALICE), named(&env, BOB), named(&env, CAROL)],
        required_sigs: 2,
    };
    assert_eq!(wallet.configuration(), Some(&expected));
}

#[test]
fn initialize_twice_is_refused_and_keeps_the_first_configuration() {
    let env = plain_env();
    let mut wallet = two_of_three(&env);
    let first = wallet.configuration().unwrap().clone();

    // Valid arguments, other owners.
    assert_eq!(
        wallet.initialize(vec![named(&env, DAVE)], 1),
        Err(WalletError::AlreadyInitialized)
    );
    assert_eq!(wallet.configuration(), Some(&first));

    // Arguments that would not have been let through either.
    assert_eq!(wallet.initialize(vec![], 0), Err(WalletError::AlreadyInitialized));
    assert_eq!(wallet.configuration(), Some(&first));

    // The same arguments again.
    assert_eq!(
        wallet.initialize(vec![named(&env, ALICE), named(&env, BOB), named(&env, CAROL)], 2),
        Err(WalletError::AlreadyInitialized)
    );
    assert_eq!(wallet.configuration(), Some(&first));
}

#[test]
fn initialize_after_a_refused_attempt_goes_through() {
    let env = plain_env();
    let mut wallet = MultiSigWallet::new();
    assert_eq!(
        wallet.initialize(vec![named(&env, ALICE), named(&env, BOB)], 3),
        Err(WalletError::InvalidParameters)
    );
    assert_eq!(wallet.initialize(vec![named(&env, ALICE), named(&env, BOB)], 2), Ok(()));
    assert_eq!(wallet.configuration().unwrap().required_sigs, 2);
}

#[test]
fn initialize_refuses_an_empty_owner_list() {
    let mut wallet = MultiSigWallet::new();
    assert_eq!(wallet.initialize(vec![], 0), Err(WalletError::InvalidParameters));
    assert_eq!(wallet.initialize(vec![], 1), Err(WalletError::InvalidParameters));
    assert!(!wallet.is_initialized());
}

#[test]
fn initialize_refuses_a_threshold_of_zero() {
    let env = plain_env();
    let mut wallet = MultiSigWallet::new();
    assert_eq!(
        wallet.initialize(vec![named(&env, ALICE), named(&env, BOB)], 0),
        Err(WalletError::InvalidParameters)
    );
    assert!(!wallet.is_initialized());
}

#[test]
fn initialize_accepts_a_threshold_equal_to_the_number_of_owners() {
    let env = plain_env();
    let mut wallet = MultiSigWallet::new();
    assert_eq!(wallet.initialize(vec![named(&env, ALICE), named(&env, BOB)], 2), Ok(()));
    let mut single = MultiSigWallet::new();
    assert_eq!(single.initialize(vec![named(&env, ALICE)], 1), Ok(()));
}

#[test]
fn initialize_accepts_an_owner_named_twice() {
    let env = plain_env();
    let mut wallet = MultiSigWallet::new();
    assert_eq!(
        wallet.initialize(vec![named(&env, ALICE), named(&env, ALICE), named(&env, BOB)], 3),
        Ok(())
    );
    wallet.submit_transaction(true, &named(&env, ALICE), named(&env, DAVE), 1).unwrap();
    wallet.approve_transaction(true, &named(&env, ALICE), 1).unwrap();
    wallet.approve_transaction(true, &named(&env, BOB), 1).unwrap();
    // Two owners are all there are, and the threshold asks for three.
    assert_eq!(
        wallet.approve_transaction(true, &named(&env, ALICE), 1),
        Err(WalletError::AlreadyApproved)
    );
    assert_eq!(
        wallet.execute_transaction(true, &named(&env, BOB), 1),
        Err(WalletError::InsufficientApprovals)
    );
}

#[test]
fn identifiers_count_up_from_one() {
    let env = plain_env();
    let mut wallet = two_of_three(&env);
    let alice = named(&env, ALICE);
    assert_eq!(wallet.submit_transaction(true, &alice, named(&env, DAVE), 10), Ok(1));
    assert_eq!(wallet.tx_count(), 1);
    assert_eq!(wallet.submit_transaction(true, &named(&env, BOB), named(&env, VAULT), 20), Ok(2));
    assert_eq!(wallet.submit_transaction(true, &alice, named(&env, DAVE), 30), Ok(3));
    assert_eq!(wallet.tx_count(), 3);

    let second = Transaction {
        tx_id: 2,
        to: named(&env, VAULT),
        amount: 20,
        approvals: 0,
        executed: false,
    };
    assert_eq!(wallet.transaction(&TxBook::Transaction(2)), Some(&second));
    assert_eq!(wallet.transaction(&TxBook::Transaction(3)).unwrap().amount, 30);
    assert!(wallet.transaction(&TxBook::Transaction(4)).is_none());
    assert!(wallet.transaction(&TxBook::Transaction(0)).is_none());
}

#[test]
fn refused_submit_gives_out_no_identifier() {
    let env = plain_env();
    let mut wallet = two_of_three(&env);
    assert_eq!(
        wallet.submit_transaction(true, &named(&env, DAVE), named(&env, DAVE), 10),
        Err(WalletError::NotAnOwner)
    );
    assert_eq!(wallet.tx_count(), 0);
    assert_eq!(wallet.submit_transaction(true, &named(&env, ALICE), named(&env, DAVE), 10), Ok(1));
}

#[test]
fn amounts_of_any_sign_are_accepted() {
    let env = plain_env();
    let mut wallet = two_of_three(&env);
    let alice = named(&env, ALICE);
    assert_eq!(wallet.submit_transaction(true, &alice, named(&env, DAVE), 0), Ok(1));
    assert_eq!(wallet.submit_transaction(true, &alice, named(&env, DAVE), -7), Ok(2));
    assert_eq!(wallet.submit_transaction(true, &alice, named(&env, DAVE), i128::MIN), Ok(3));
    assert_eq!(wallet.submit_transaction(true, &alice, named(&env, DAVE), i128::MAX), Ok(4));
    assert_eq!(wallet.transaction(&TxBook::Transaction(1)).unwrap().amount, 0);
    assert_eq!(wallet.transaction(&TxBook::Transaction(2)).unwrap().amount, -7);
    assert_eq!(wallet.transaction(&TxBook::Transaction(3)).unwrap().amount, i128::MIN);
    assert_eq!(wallet.transaction(&TxBook::Transaction(4)).unwrap().amount, i128::MAX);
}

#[test]
fn every_call_before_setup_is_refused_as_not_initialized() {
    let env = plain_env();
    let alice = named(&env, ALICE);
    let mut wallet = MultiSigWallet::new();
    assert_eq!(
        wallet.submit_transaction(true, &alice, named(&env, DAVE), 1),
        Err(WalletError::NotInitialized)
    );
    assert_eq!(wallet.approve_transaction(true, &alice, 1), Err(WalletError::NotInitialized));
    assert_eq!(wallet.execute_transaction(true, &alice, 1), Err(WalletError::NotInitialized));
    assert_eq!(wallet.tx_count(), 0);
}

#[test]
fn a_stranger_is_refused_by_every_call() {
    let env = plain_env();
    let mut wallet = two_of_three(&env);
    let alice = named(&env, ALICE);
    let stranger = named(&env, DAVE);
    wallet.submit_transaction(true, &alice, named(&env, VAULT), 50).unwrap();
    wallet.approve_transaction(true, &alice, 1).unwrap();
    wallet.approve_transaction(true, &named(&env, BOB), 1).unwrap();

    // Otherwise valid arguments: the transaction exists and has its quorum.
    assert_eq!(
        wallet.submit_transaction(true, &stranger, named(&env, VAULT), 1),
        Err(WalletError::NotAnOwner)
    );
    assert_eq!(wallet.approve_transaction(true, &stranger, 1), Err(WalletError::NotAnOwner));
    assert_eq!(wallet.execute_transaction(true, &stranger, 1), Err(WalletError::NotAnOwner));
    // Arguments that are wrong in other ways too.
    assert_eq!(wallet.approve_transaction(true, &stranger, 99), Err(WalletError::NotAnOwner));
    assert_eq!(wallet.execute_transaction(true, &stranger, 0), Err(WalletError::NotAnOwner));

    let t = wallet.transaction(&TxBook::Transaction(1)).unwrap();
    assert_eq!(t.approvals, 2);
    assert!(!t.executed);
    assert_eq!(wallet.tx_count(), 1);
}

#[test]
fn an_unauthenticated_caller_is_refused_first() {
    let env = plain_env();
    let alice = named(&env, ALICE);

    // Before setup, and for a stranger: the proof of identity comes first.
    let mut fresh = MultiSigWallet::new();
    assert_eq!(
        fresh.submit_transaction(false, &alice, named(&env, DAVE), 1),
        Err(WalletError::Unauthenticated)
    );

    let mut wallet = two_of_three(&env);
    assert_eq!(
        wallet.submit_transaction(false, &alice, named(&env, DAVE), 1),
        Err(WalletError::Unauthenticated)
    );
    assert_eq!(
        wallet.approve_transaction(false, &named(&env, DAVE), 1),
        Err(WalletError::Unauthenticated)
    );
    assert_eq!(wallet.execute_transaction(false, &alice, 7), Err(WalletError::Unauthenticated));
    assert_eq!(wallet.tx_count(), 0);
}

#[test]
fn unknown_transactions_are_not_found() {
    let env = plain_env();
    let mut wallet = two_of_three(&env);
    let alice = named(&env, ALICE);
    assert_eq!(wallet.approve_transaction(true, &alice, 1), Err(WalletError::TransactionNotFound));
    assert_eq!(wallet.execute_transaction(true, &alice, 1), Err(WalletError::TransactionNotFound));
    wallet.submit_transaction(true, &alice, named(&env, DAVE), 1).unwrap();
    assert_eq!(wallet.approve_transaction(true, &alice, 0), Err(WalletError::TransactionNotFound));
    assert_eq!(wallet.approve_transaction(true, &alice, 2), Err(WalletError::TransactionNotFound));
    assert_eq!(
        wallet.execute_transaction(true, &alice, u64::MAX),
        Err(WalletError::TransactionNotFound)
    );
    assert!(!wallet.has_approval(&Approvals::Approval(2, alice)));
}

#[test]
fn a_repeated_approval_leaves_the_count_unchanged() {
    let env = plain_env();
    let mut wallet = two_of_three(&env);
    let alice = named(&env, ALICE);
    wallet.submit_transaction(true, &alice, named(&env, DAVE), 1).unwrap();
    wallet.submit_transaction(true, &alice, named(&env, DAVE), 2).unwrap();

    assert_eq!(wallet.approve_transaction(true, &alice, 1), Ok(()));
    assert!(wallet.has_approval(&Approvals::Approval(1, alice.clone())));
    assert!(!wallet.has_approval(&Approvals::Approval(2, alice.clone())));
    assert!(!wallet.has_approval(&Approvals::Approval(1, named(&env, BOB))));

    assert_eq!(wallet.approve_transaction(true, &alice, 1), Err(WalletError::AlreadyApproved));
    assert_eq!(wallet.approve_transaction(true, &alice, 1), Err(WalletError::AlreadyApproved));
    assert_eq!(wallet.transaction(&TxBook::Transaction(1)).unwrap().approvals, 1);

    // Other calls in between do not bring the approval back.
    wallet.approve_transaction(true, &alice, 2).unwrap();
    wallet.approve_transaction(true, &named(&env, BOB), 1).unwrap();
    assert_eq!(wallet.approve_transaction(true, &alice, 1), Err(WalletError::AlreadyApproved));
    assert_eq!(wallet.transaction(&TxBook::Transaction(1)).unwrap().approvals, 2);
    assert_eq!(wallet.transaction(&TxBook::Transaction(2)).unwrap().approvals, 1);
}

#[test]
fn the_same_owner_through_another_handle_counts_once() {
    let env = plain_env();
    let mut wallet = two_of_three(&env);
    let alice = named(&env, ALICE);
    let alice_again = named(&env, ALICE);
    wallet.submit_transaction(true, &alice, named(&env, DAVE), 1).unwrap();
    assert_eq!(wallet.approve_transaction(true, &alice, 1), Ok(()));
    assert_eq!(
        wallet.approve_transaction(true, &alice_again, 1),
        Err(WalletError::AlreadyApproved)
    );
    assert!(wallet.has_approval(&Approvals::Approval(1, alice_again)));
    assert_eq!(wallet.transaction(&TxBook::Transaction(1)).unwrap().approvals, 1);
}

#[test]
fn execute_below_the_threshold_never_marks_the_record() {
    let env = plain_env();
    let mut wallet = MultiSigWallet::new();
    let alice = named(&env, ALICE);
    let bob = named(&env, BOB);
    let carol = named(&env, CAROL);
    wallet.initialize(vec![alice.clone(), bob.clone(), carol.clone()], 3).unwrap();
    wallet.submit_transaction(true, &alice, named(&env, DAVE), 9).unwrap();
    let key = TxBook::Transaction(1);

    assert_eq!(
        wallet.execute_transaction(true, &alice, 1),
        Err(WalletError::InsufficientApprovals)
    );
    assert!(!wallet.transaction(&key).unwrap().executed);
    wallet.approve_transaction(true, &alice, 1).unwrap();
    assert_eq!(
        wallet.execute_transaction(true, &alice, 1),
        Err(WalletError::InsufficientApprovals)
    );
    wallet.approve_transaction(true, &bob, 1).unwrap();
    assert_eq!(wallet.execute_transaction(true, &bob, 1), Err(WalletError::InsufficientApprovals));
    assert!(!wallet.transaction(&key).unwrap().executed);
    wallet.approve_transaction(true, &carol, 1).unwrap();
    assert_eq!(wallet.transaction(&key).unwrap().approvals, 3);
    assert_eq!(wallet.execute_transaction(true, &bob, 1), Ok(()));
    assert!(wallet.transaction(&key).unwrap().executed);
}

#[test]
fn approvals_beyond_the_threshold_are_counted_too() {
    let env = plain_env();
    let mut wallet = two_of_three(&env);
    let alice = named(&env, ALICE);
    wallet.submit_transaction(true, &alice, named(&env, DAVE), 9).unwrap();
    wallet.approve_transaction(true, &alice, 1).unwrap();
    wallet.approve_transaction(true, &named(&env, BOB), 1).unwrap();
    wallet.approve_transaction(true, &named(&env, CAROL), 1).unwrap();
    assert_eq!(wallet.transaction(&TxBook::Transaction(1)).unwrap().approvals, 3);
    assert_eq!(wallet.execute_transaction(true, &alice, 1), Ok(()));
}

#[test]
fn records_only_move_forward() {
    let env = plain_env();
    let mut wallet = two_of_three(&env);
    let alice = named(&env, ALICE);
    let bob = named(&env, BOB);
    let carol = named(&env, CAROL);
    let key = TxBook::Transaction(1);
    wallet.submit_transaction(true, &alice, named(&env, DAVE), 77).unwrap();

    let mut approvals = 0;
    let mut executed = false;
    let mut observe = |wallet: &MultiSigWallet| {
        let t = wallet.transaction(&key).unwrap();
        assert!(t.approvals >= approvals);
        assert!(t.executed || !executed);
        assert_eq!(t.tx_id, 1);
        assert_eq!(t.amount, 77);
        approvals = t.approvals;
        executed = t.executed;
    };

    let _ = wallet.approve_transaction(true, &alice, 1);
    observe(&wallet);
    let _ = wallet.approve_transaction(true, &alice, 1);
    observe(&wallet);
    let _ = wallet.execute_transaction(true, &alice, 1);
    observe(&wallet);
    let _ = wallet.submit_transaction(true, &bob, named(&env, VAULT), 3);
    observe(&wallet);
    let _ = wallet.approve_transaction(true, &bob, 1);
    observe(&wallet);
    let _ = wallet.initialize(vec![carol.clone()], 1);
    observe(&wallet);
    let _ = wallet.execute_transaction(true, &carol, 1);
    observe(&wallet);
    let _ = wallet.approve_transaction(true, &carol, 1);
    observe(&wallet);
    let _ = wallet.execute_transaction(true, &alice, 1);
    observe(&wallet);
    let _ = wallet.approve_transaction(true, &bob, 2);
    observe(&wallet);

    assert_eq!(approvals, 2);
    assert!(executed);
}

#[test]
fn transactions_are_approved_independently() {
    let env = plain_env();
    let mut wallet = two_of_three(&env);
    let alice = named(&env, ALICE);
    let bob = named(&env, BOB);
    wallet.submit_transaction(true, &alice, named(&env, DAVE), 1).unwrap();
    wallet.submit_transaction(true, &bob, named(&env, VAULT), 2).unwrap();
    wallet.approve_transaction(true, &alice, 2).unwrap();
    wallet.approve_transaction(true, &bob, 2).unwrap();
    wallet.approve_transaction(true, &bob, 1).unwrap();

    assert_eq!(wallet.transaction(&TxBook::Transaction(1)).unwrap().approvals, 1);
    assert_eq!(wallet.transaction(&TxBook::Transaction(2)).unwrap().approvals, 2);
    assert_eq!(
        wallet.execute_transaction(true, &alice, 1),
        Err(WalletError::InsufficientApprovals)
    );
    assert_eq!(wallet.execute_transaction(true, &alice, 2), Ok(()));
    assert!(!wallet.transaction(&TxBook::Transaction(1)).unwrap().executed);
    assert!(wallet.transaction(&TxBook::Transaction(2)).unwrap().executed);
}

#[test]
fn generated_and_named_addresses_are_told_apart() {
    let env = plain_env();
    let first = Address::generate(&env);
    let second = Address::generate(&env);
    let mut wallet = MultiSigWallet::new();
    wallet.initialize(vec![first.clone(), named(&env, VAULT)], 1).unwrap();
    assert_eq!(
        wallet.submit_transaction(true, &second, first.clone(), 1),
        Err(WalletError::NotAnOwner)
    );
    assert_eq!(wallet.submit_transaction(true, &named(&env, VAULT), second, 1), Ok(1));
    assert_eq!(wallet.approve_transaction(true, &first, 1), Ok(()));
    assert_eq!(wallet.execute_transaction(true, &first, 1), Ok(()));
}

#[test]
fn many_transactions_keep_their_places() {
    let env = plain_env();
    let mut wallet = two_of_three(&env);
    let alice = named(&env, ALICE);
    let bob = named(&env, BOB);
    for n in 1..=200u64 {
        let amount = (n as i128) * 10;
        assert_eq!(wallet.submit_transaction(true, &alice, named(&env, DAVE), amount), Ok(n));
    }
    assert_eq!(wallet.tx_count(), 200);
    for n in (2..=200u64).step_by(2) {
        assert_eq!(wallet.approve_transaction(true, &bob, n), Ok(()));
    }
    wallet.approve_transaction(true, &alice, 200).unwrap();
    wallet.execute_transaction(true, &alice, 200).unwrap();
    for n in 1..=200u64 {
        let t = wallet.transaction(&TxBook::Transaction(n)).unwrap();
        assert_eq!(t.tx_id, n);
        assert_eq!(t.amount, (n as i128) * 10);
        let expected = if n == 200 { 2 } else if n % 2 == 0 { 1 } else { 0 };
        assert_eq!(t.approvals, expected);
        assert_eq!(t.executed, n == 200);
        assert_eq!(wallet.has_approval(&Approvals::Approval(n, bob.clone())), n % 2 == 0);
        assert_eq!(wallet.has_approval(&Approvals::Approval(n, alice.clone())), n == 200);
    }
    assert!(wallet.transaction(&TxBook::Transaction(201)).is_none());
}
