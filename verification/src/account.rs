//! A client's account and the transactions it takes.

use std::collections::HashMap;
use vstd::prelude::*;

use crate::model::AccountState;
use crate::transaction::{Transaction, Type};

verus! {

broadcast use vstd::std_specs::hash::group_hash_axioms;

/// Why a transaction was not applied to an account.
#[derive(Clone, Copy, Debug, PartialEq, Eq, Structural)]
pub enum Error {
    /// The account is locked.
    AccountLocked,
    /// A withdrawal asked for more than was available: the amount requested,
    /// then the amount available.
    InsufficientFunds(i64, i128),
    /// A deposit or withdrawal carried no amount.
    MissingAmount,
}

/// A client's account.
///
/// Balances count ten-thousandths of a currency unit.
#[derive(Debug)]
pub struct Account {
    /// The owning client's identifier
    client: u16,
    /// The amount of available funds
    available: i128,
    /// The amount of held funds
    held: i128,
    /// The total amount of funds
    total: i128,
    /// True if the account is locked
    locked: bool,
    /// The transactions that have been applied to the account and
    /// can be disputed
    transactions: HashMap<u32, Transaction>,
}

impl View for Account {
    type V = AccountState;

    closed spec fn view(&self) -> AccountState {
        AccountState {
            client: self.client,
            available: self.available as int,
            held: self.held as int,
            total: self.total as int,
            locked: self.locked,
            disputable: self.transactions@,
        }
    }
}

impl Account {
    /// Creates a new account for a client, with no funds and nothing to
    /// dispute.
    pub fn new(client: u16) -> (account: Self)
        ensures
            account@ == AccountState::new(client),
            account@.wf(),
    {
        Self { client, available: 0, held: 0, total: 0, locked: false, transactions: HashMap::new() }
    }

    /// The owning client's identifier.
    pub fn client(&self) -> (client: u16)
        ensures
            client == self@.client,
    {
        self.client
    }

    /// The amount of available funds.
    pub fn available(&self) -> (amount: i128)
        ensures
            amount == self@.available,
    {
        self.available
    }

    /// The amount of held funds.
    pub fn held(&self) -> (amount: i128)
        ensures
            amount == self@.held,
    {
        self.held
    }

    /// The total amount of funds.
    pub fn total(&self) -> (amount: i128)
        ensures
            amount == self@.total,
    {
        self.total
    }

    /// True if the account is locked.
    pub fn locked(&self) -> (locked: bool)
        ensures
            locked == self@.locked,
    {
        self.locked
    }

    /// The transactions that have been applied to the account and can be
    /// disputed, by identifier.
    pub fn transactions(&self) -> (transactions: &HashMap<u32, Transaction>)
        ensures
            transactions@ == self@.disputable,
    {
        &self.transactions
    }

    /// Applies the transaction to the account.
    ///
    /// A locked account rejects every transaction and stays as it is.
    /// Otherwise the transaction is handled according to its type.
    pub fn apply_transaction(&mut self, transaction: &Transaction) -> (result: Result<(), Error>)
        requires
            old(self)@.wf(),
            transaction.client == old(self)@.client,
            old(self)@.apply(*transaction).representable(),
        ensures
            final(self)@ == old(self)@.apply(*transaction),
            result == old(self)@.outcome(*transaction),
            final(self)@.wf(),
    {
        if self.locked {
            return Err(Error::AccountLocked);
        }
        match transaction.kind {
            Type::Deposit => self.deposit(transaction),
            Type::Withdrawal => self.withdrawal(transaction),
            Type::Dispute => {
                self.dispute(transaction.tx);
                Ok(())
            },
            Type::Resolve => {
                self.resolve(transaction.tx);
                Ok(())
            },
            Type::Chargeback => {
                self.chargeback(transaction.tx);
                Ok(())
            },
        }
    }

    /// Performs a chargeback on the account: removes the funds associated with
    /// the transaction and locks the account. A chargeback of a withdrawal, or
    /// of a transaction that is not on record, moves no funds and does not
    /// lock.
    pub fn chargeback(&mut self, tx: u32)
        requires
            old(self)@.wf(),
            old(self)@.chargeback(tx).representable(),
        ensures
            final(self)@ == old(self)@.chargeback(tx),
            final(self)@.wf(),
    {
        if let Some(transaction) = self.transactions.remove(&tx) {
            if transaction.kind == Type::Withdrawal {
                return ;
            }
            let amount = transaction.amount.unwrap();
            self.held -= amount as i128;
            self.total -= amount as i128;
            self.locked = true;
        } else {
            assert(self.transactions@ =~= old(self).transactions@);
        }
    }

    /// Deposits funds into the account and keeps the transaction on record in
    /// case of dispute.
    pub fn deposit(&mut self, transaction: &Transaction) -> (result: Result<(), Error>)
        requires
            old(self)@.wf(),
            transaction.kind == Type::Deposit,
            transaction.client == old(self)@.client,
            old(self)@.deposit(*transaction).representable(),
        ensures
            final(self)@ == old(self)@.deposit(*transaction),
            result == old(self)@.deposit_outcome(*transaction),
            final(self)@.wf(),
    {
        let amount = match transaction.amount {
            Some(amount) => amount,
            None => { return Err(Error::MissingAmount); },
        };
        self.available += amount as i128;
        self.total += amount as i128;
        self.transactions.insert(transaction.tx, *transaction);
        Ok(())
    }

    /// Disputes a transaction: holds its amount until the dispute is settled.
    /// A transaction that is not on record is ignored.
    pub fn dispute(&mut self, tx: u32)
        requires
            old(self)@.wf(),
            old(self)@.dispute(tx).representable(),
        ensures
            final(self)@ == old(self)@.dispute(tx),
            final(self)@.wf(),
    {
        if let Some(transaction) = self.transactions.get(&tx) {
            let amount = transaction.amount.unwrap();
            let kind = transaction.kind;
            self.held += amount as i128;
            match kind {
                Type::Deposit => {
                    self.available -= amount as i128;
                },
                Type::Withdrawal => {
                    self.total += amount as i128;
                },
                _ => {},
            }
        }
    }

    /// Resolves a disputed transaction, releasing the held funds to the
    /// client. A transaction that is not on record is ignored.
    pub fn resolve(&mut self, tx: u32)
        requires
            old(self)@.wf(),
            old(self)@.resolve(tx).representable(),
        ensures
            final(self)@ == old(self)@.resolve(tx),
            final(self)@.wf(),
    {
        if let Some(transaction) = self.transactions.remove(&tx) {
            let amount = transaction.amount.unwrap();
            self.held -= amount as i128;
            self.available += amount as i128;
        } else {
            assert(self.transactions@ =~= old(self).transactions@);
        }
    }

    /// Withdraws funds from the account and keeps the transaction on record
    /// in case of dispute. A withdrawal of more than is available fails and
    /// leaves the account as it was.
    pub fn withdrawal(&mut self, transaction: &Transaction) -> (result: Result<(), Error>)
        requires
            old(self)@.wf(),
            transaction.kind == Type::Withdrawal,
            transaction.client == old(self)@.client,
            old(self)@.withdrawal(*transaction).representable(),
        ensures
            final(self)@ == old(self)@.withdrawal(*transaction),
            result == old(self)@.withdrawal_outcome(*transaction),
            final(self)@.wf(),
    {
        let requested = match transaction.amount {
            Some(requested) => requested,
            None => { return Err(Error::MissingAmount); },
        };
        if requested as i128 > self.available {
            Err(Error::InsufficientFunds(requested, self.available))
        } else {
            self.available -= requested as i128;
            self.total -= requested as i128;
            self.transactions.insert(transaction.tx, *transaction);
            Ok(())
        }
    }
}

} // verus!
