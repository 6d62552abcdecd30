//! The ledger: every client's account, and the routing of transactions to
//! them.

use std::collections::HashMap;
use vstd::prelude::*;

use crate::account::{Account, Error};
use crate::model::LedgerState;
use crate::theorems::lemma_empty_accepts;
use crate::transaction::Transaction;

verus! {

broadcast use vstd::std_specs::hash::group_hash_axioms;

/// A toy payments engine
pub struct Engine {
    /// The accounts available for processing
    pub accounts: HashMap<u16, Account>,
}

impl View for Engine {
    type V = LedgerState;

    open spec fn view(&self) -> LedgerState {
        LedgerState {
            accounts: Map::new(
                |client: u16| self.accounts@.contains_key(client),
                |client: u16| self.accounts@[client]@,
            ),
        }
    }
}

impl Engine {
    /// Applies a batch of transactions, in order, each to the account of its
    /// client. An account is created when its client is first seen. Returns
    /// the failures with the position of the entry that caused each, counted
    /// from one; a failure does not stop the batch.
    pub fn apply_transactions(&mut self, transactions: &[Transaction]) -> (errors: Vec<
        (usize, Error),
    >)
        requires
            old(self)@.wf(),
            old(self)@.accepts(transactions@),
        ensures
            final(self)@ == old(self)@.apply_all(transactions@),
            errors@ == old(self)@.errors(transactions@),
            final(self)@.wf(),
    {
        let mut errors: Vec<(usize, Error)> = Vec::new();
        let mut i: usize = 0;
        while i < transactions.len()
            invariant
                i <= transactions.len(),
                old(self)@.accepts(transactions@),
                self@ == old(self)@.apply_all(transactions@.take(i as int)),
                errors@ == old(self)@.errors(transactions@.take(i as int)),
                self@.wf(),
            decreases transactions.len() - i,
        {
            let transaction = &transactions[i];
            let ghost before = self@;
            let ghost batch = transactions@.take(i + 1);
            assert(batch.drop_last() == transactions@.take(i as int));
            assert(batch.last() == *transaction);
            assert(old(self)@.apply_all(batch) == before.apply(*transaction));
            assert(before.apply(*transaction).accounts.contains_key(transaction.client));
            let account = self.accounts.entry(transaction.client).or_insert(
                Account::new(transaction.client),
            );
            assert(account@ == before.account(transaction.client));
            let result = account.apply_transaction(transaction);
            if let Err(e) = result {
                errors.push((i + 1, e));
            }
            assert(self@.accounts =~= before.apply(*transaction).accounts);
            i += 1;
        }
        assert(transactions@.take(transactions.len() as int) == transactions@);
        errors
    }

    /// Creates a new accounts engine
    pub fn new() -> (engine: Self)
        ensures
            engine@ == LedgerState::empty(),
            engine@.wf(),
            forall|ts: Seq<Transaction>| ts.len() <= usize::MAX ==> #[trigger] engine@.accepts(ts),
    {
        let engine = Self { accounts: HashMap::new() };
        assert(engine@.accounts =~= LedgerState::empty().accounts);
        assert forall|ts: Seq<Transaction>| ts.len() <= usize::MAX implies #[trigger] engine@.accepts(
            ts,
        ) by {
            lemma_empty_accepts(ts);
        }
        engine
    }
}

} // verus!
