use payments_engine::account::Error;
use payments_engine::engine::Engine;
use payments_engine::transaction::{Transaction, Type};

fn entry(kind: Type, client: u16, tx: u32, amount: Option<i64>) -> Transaction {
    Transaction { kind, client, tx, amount }
}

#[test]
fn new_engine_has_no_accounts() {
    let engine = Engine::new();
    assert!(engine.accounts.is_empty());
}

#[test]
fn empty_batch_changes_nothing() {
    let mut engine = Engine::new();
    let errors = engine.apply_transactions(&[]);
    assert!(errors.is_empty());
    assert!(engine.accounts.is_empty());
}

#[test]
fn batch_routes_each_entry_to_its_client() {
    let mut engine = Engine::new();
    let errors = engine.apply_transactions(&[
        entry(Type::Deposit, 1, 1, Some(10_000)),
        entry(Type::Deposit, 2, 2, Some(20_000)),
        entry(Type::Deposit, 1, 3, Some(20_000)),
        entry(Type::Withdrawal, 1, 4, Some(15_000)),
        entry(Type::Withdrawal, 2, 5, Some(30_000)),
    ]);
    assert_eq!(errors, vec![(5, Error::InsufficientFunds(30_000, 20_000))]);
    assert_eq!(engine.accounts.len(), 2);
    let first = &engine.accounts[&1];
    assert_eq!(first.client(), 1);
    assert_eq!((first.available(), first.held(), first.total()), (15_000, 0, 15_000));
    assert!(!first.locked());
    let second = &engine.accounts[&2];
    assert_eq!(second.client(), 2);
    assert_eq!((second.available(), second.held(), second.total()), (20_000, 0, 20_000));
    assert!(!second.locked());
}

#[test]
fn failures_are_numbered_from_one_and_do_not_stop_the_batch() {
    let mut engine = Engine::new();
    let errors = engine.apply_transactions(&[
        entry(Type::Withdrawal, 3, 1, Some(5)),
        entry(Type::Deposit, 3, 2, None),
        entry(Type::Deposit, 3, 3, Some(40)),
        entry(Type::Dispute, 3, 3, None),
        entry(Type::Chargeback, 3, 3, None),
        entry(Type::Deposit, 3, 4, Some(1)),
        entry(Type::Deposit, 4, 5, Some(1)),
        entry(Type::Dispute, 3, 5, None),
    ]);
    assert_eq!(
        errors,
        vec![
            (1, Error::InsufficientFunds(5, 0)),
            (2, Error::MissingAmount),
            (6, Error::AccountLocked),
            (8, Error::AccountLocked),
        ]
    );
    let locked = &engine.accounts[&3];
    assert!(locked.locked());
    assert_eq!((locked.available(), locked.held(), locked.total()), (0, 0, 0));
    let other = &engine.accounts[&4];
    assert!(!other.locked());
    assert_eq!(other.total(), 1);
}

#[test]
fn account_is_created_even_when_its_first_entry_fails() {
    let mut engine = Engine::new();
    let errors = engine.apply_transactions(&[entry(Type::Withdrawal, 9, 1, Some(1_234_500))]);
    assert_eq!(errors, vec![(1, Error::InsufficientFunds(1_234_500, 0))]);
    assert_eq!(engine.accounts.len(), 1);
    let account = &engine.accounts[&9];
    assert_eq!(account.client(), 9);
    assert_eq!((account.available(), account.held(), account.total()), (0, 0, 0));
    assert!(account.transactions().is_empty());
}

#[test]
fn reference_to_another_clients_transaction_is_ignored() {
    let mut engine = Engine::new();
    let errors = engine.apply_transactions(&[
        entry(Type::Deposit, 1, 1, Some(500)),
        entry(Type::Dispute, 2, 1, None),
        entry(Type::Chargeback, 2, 1, None),
    ]);
    assert!(errors.is_empty());
    let owner = &engine.accounts[&1];
    assert_eq!((owner.available(), owner.held(), owner.total()), (500, 0, 500));
    let other = &engine.accounts[&2];
    assert_eq!((other.available(), other.held(), other.total()), (0, 0, 0));
    assert!(!other.locked());
}

#[test]
fn later_batch_continues_on_the_same_accounts() {
    let mut engine = Engine::new();
    let first = engine.apply_transactions(&[entry(Type::Deposit, 1, 1, Some(500))]);
    assert!(first.is_empty());
    let second = engine.apply_transactions(&[
        entry(Type::Withdrawal, 1, 2, Some(600)),
        entry(Type::Dispute, 1, 1, None),
    ]);
    assert_eq!(second, vec![(1, Error::InsufficientFunds(600, 500))]);
    assert_eq!(engine.accounts.len(), 1);
    let account = &engine.accounts[&1];
    assert_eq!((account.available(), account.held(), account.total()), (0, 500, 500));
}

#[test]
fn every_account_is_balanced_after_a_batch() {
    let mut engine = Engine::new();
    let mut batch: Vec<Transaction> = Vec::new();
    for n in 0..60u32 {
        let client = (n % 3) as u16;
        batch.push(entry(Type::Deposit, client, n, Some(100 + n as i64)));
        if n % 4 == 0 {
            batch.push(entry(Type::Dispute, client, n, None));
        }
        if n % 8 == 0 {
            batch.push(entry(Type::Resolve, client, n, None));
        }
        if n % 5 == 0 {
            batch.push(entry(Type::Withdrawal, client, 1_000 + n, Some(150)));
        }
    }
    engine.apply_transactions(&batch);
    assert_eq!(engine.accounts.len(), 3);
    for account in engine.accounts.values() {
        assert_eq!(account.total(), account.available() + account.held());
    }
}
