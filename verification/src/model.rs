//! The mathematical model of accounts and of the ledger.
//!
//! Balances are unbounded integers here, so the transition functions say what
//! each transaction does without regard to machine limits. The executable
//! types in [`crate::account`] and [`crate::engine`] are specified against
//! these functions.

use vstd::prelude::*;

use crate::account::Error;
use crate::transaction::{Transaction, Type};

verus! {

/// The state of one client's account.
pub struct AccountState {
    /// The owning client's identifier
    pub client: u16,
    /// Funds the client may withdraw
    pub available: int,
    /// Funds frozen while a dispute is open
    pub held: int,
    /// All funds of the account
    pub total: int,
    /// Whether the account rejects every further transaction
    pub locked: bool,
    /// The deposits and withdrawals that can still be disputed, by identifier
    pub disputable: Map<u32, Transaction>,
}

impl AccountState {
    /// The account of `client` before its first transaction.
    pub open spec fn new(client: u16) -> Self {
        AccountState {
            client,
            available: 0,
            held: 0,
            total: 0,
            locked: false,
            disputable: Map::empty(),
        }
    }

    /// The total is the sum of the available and the held funds.
    pub open spec fn balanced(self) -> bool {
        self.total == self.available + self.held
    }

    /// The account is balanced, and every record kept for dispute is a deposit
    /// or withdrawal of this client, with an amount, filed under its own
    /// identifier.
    pub open spec fn wf(self) -> bool {
        &&& self.balanced()
        &&& forall|tx: u32| #[trigger]
            self.disputable.contains_key(tx) ==> {
                &&& self.disputable[tx].tx == tx
                &&& self.disputable[tx].client == self.client
                &&& self.disputable[tx].is_movement()
            }
    }

    /// Every balance lies within `bound` of zero.
    pub open spec fn within(self, bound: int) -> bool {
        &&& -bound <= self.available <= bound
        &&& -bound <= self.held <= bound
        &&& -bound <= self.total <= bound
    }

    /// Every balance fits the machine integer that holds it.
    pub open spec fn representable(self) -> bool {
        &&& i128::MIN <= self.available <= i128::MAX
        &&& i128::MIN <= self.held <= i128::MAX
        &&& i128::MIN <= self.total <= i128::MAX
    }

    /// The state after a deposit. A record without an amount changes nothing.
    pub open spec fn deposit(self, t: Transaction) -> Self {
        match t.amount {
            Some(amount) => AccountState {
                available: self.available + amount,
                total: self.total + amount,
                disputable: self.disputable.insert(t.tx, t),
                ..self
            },
            None => self,
        }
    }

    /// What a deposit reports.
    pub open spec fn deposit_outcome(self, t: Transaction) -> Result<(), Error> {
        match t.amount {
            Some(_) => Ok(()),
            None => Err(Error::MissingAmount),
        }
    }

    /// The state after a withdrawal. A record without an amount, or one that
    /// asks for more than is available, changes nothing.
    pub open spec fn withdrawal(self, t: Transaction) -> Self {
        match t.amount {
            Some(requested) if requested <= self.available => AccountState {
                available: self.available - requested,
                total: self.total - requested,
                disputable: self.disputable.insert(t.tx, t),
                ..self
            },
            _ => self,
        }
    }

    /// What a withdrawal reports.
    pub open spec fn withdrawal_outcome(self, t: Transaction) -> Result<(), Error> {
        match t.amount {
            Some(requested) => if requested > self.available {
                Err(Error::InsufficientFunds(requested, self.available as i128))
            } else {
                Ok(())
            },
            None => Err(Error::MissingAmount),
        }
    }

    /// The state after a dispute of the record `tx`. The disputed amount
    /// becomes held: a deposit's leaves the available funds, a withdrawal's is
    /// added to the total. The record stays. An unknown `tx` changes nothing.
    pub open spec fn dispute(self, tx: u32) -> Self {
        if self.disputable.contains_key(tx) {
            let record = self.disputable[tx];
            let amount = record.value();
            AccountState {
                held: self.held + amount,
                available: if record.kind == Type::Deposit {
                    self.available - amount
                } else {
                    self.available
                },
                total: if record.kind == Type::Withdrawal {
                    self.total + amount
                } else {
                    self.total
                },
                ..self
            }
        } else {
            self
        }
    }

    /// The state after the dispute of the record `tx` is resolved. The amount
    /// moves from the held to the available funds and the record is dropped.
    /// An unknown `tx` changes nothing.
    pub open spec fn resolve(self, tx: u32) -> Self {
        if self.disputable.contains_key(tx) {
            let amount = self.disputable[tx].value();
            AccountState {
                held: self.held - amount,
                available: self.available + amount,
                disputable: self.disputable.remove(tx),
                ..self
            }
        } else {
            self
        }
    }

    /// The state after a chargeback of the record `tx`. The record is dropped.
    /// Unless it is a withdrawal, its amount leaves the held funds and the
    /// total, and the account is locked. An unknown `tx` changes nothing.
    pub open spec fn chargeback(self, tx: u32) -> Self {
        if self.disputable.contains_key(tx) {
            let record = self.disputable[tx];
            let amount = record.value();
            if record.kind == Type::Withdrawal {
                AccountState { disputable: self.disputable.remove(tx), ..self }
            } else {
                AccountState {
                    held: self.held - amount,
                    total: self.total - amount,
                    locked: true,
                    disputable: self.disputable.remove(tx),
                    ..self
                }
            }
        } else {
            self
        }
    }

    /// The state after the transaction `t`. A locked account stays as it is.
    pub open spec fn apply(self, t: Transaction) -> Self {
        if self.locked {
            self
        } else {
            match t.kind {
                Type::Deposit => self.deposit(t),
                Type::Withdrawal => self.withdrawal(t),
                Type::Dispute => self.dispute(t.tx),
                Type::Resolve => self.resolve(t.tx),
                Type::Chargeback => self.chargeback(t.tx),
            }
        }
    }

    /// What applying the transaction `t` reports. A locked account rejects it;
    /// a deposit or withdrawal may fail; the other three never do.
    pub open spec fn outcome(self, t: Transaction) -> Result<(), Error> {
        if self.locked {
            Err(Error::AccountLocked)
        } else {
            match t.kind {
                Type::Deposit => self.deposit_outcome(t),
                Type::Withdrawal => self.withdrawal_outcome(t),
                _ => Ok(()),
            }
        }
    }

    /// The state after the transactions `ts`, applied in order.
    pub open spec fn apply_all(self, ts: Seq<Transaction>) -> Self
        decreases ts.len(),
    {
        if ts.len() == 0 {
            self
        } else {
            self.apply_all(ts.drop_last()).apply(ts.last())
        }
    }
}

/// The state of the ledger: the accounts touched so far, by client.
pub struct LedgerState {
    /// The accounts, by client identifier
    pub accounts: Map<u16, AccountState>,
}

impl LedgerState {
    /// The ledger before its first transaction.
    pub open spec fn empty() -> Self {
        LedgerState { accounts: Map::empty() }
    }

    /// The account of `client`: the one on record, or a new one.
    pub open spec fn account(self, client: u16) -> AccountState {
        if self.accounts.contains_key(client) {
            self.accounts[client]
        } else {
            AccountState::new(client)
        }
    }

    /// Every account is well formed and filed under its own client.
    pub open spec fn wf(self) -> bool {
        forall|client: u16| #[trigger]
            self.accounts.contains_key(client) ==> {
                &&& self.accounts[client].wf()
                &&& self.accounts[client].client == client
            }
    }

    /// Every balance of every account lies within `bound` of zero.
    pub open spec fn within(self, bound: int) -> bool {
        forall|client: u16| #[trigger]
            self.accounts.contains_key(client) ==> self.accounts[client].within(bound)
    }

    /// Every balance of every account fits the machine integer that holds it.
    pub open spec fn representable(self) -> bool {
        forall|client: u16| #[trigger]
            self.accounts.contains_key(client) ==> self.accounts[client].representable()
    }

    /// The ledger after the transaction `t`: the account of `t.client`, made
    /// if need be, has taken `t`; no other account has changed.
    pub open spec fn apply(self, t: Transaction) -> Self {
        LedgerState { accounts: self.accounts.insert(t.client, self.account(t.client).apply(t)) }
    }

    /// What applying the transaction `t` reports.
    pub open spec fn outcome(self, t: Transaction) -> Result<(), Error> {
        self.account(t.client).outcome(t)
    }

    /// The ledger after the batch `ts`, applied in order.
    pub open spec fn apply_all(self, ts: Seq<Transaction>) -> Self
        decreases ts.len(),
    {
        if ts.len() == 0 {
            self
        } else {
            self.apply_all(ts.drop_last()).apply(ts.last())
        }
    }

    /// The failures of the batch `ts`, in order, each with the position of its
    /// entry, counted from one.
    pub open spec fn errors(self, ts: Seq<Transaction>) -> Seq<(usize, Error)>
        decreases ts.len(),
    {
        if ts.len() == 0 {
            Seq::empty()
        } else {
            let earlier = self.errors(ts.drop_last());
            match self.apply_all(ts.drop_last()).outcome(ts.last()) {
                Ok(_) => earlier,
                Err(e) => earlier.push((ts.len() as usize, e)),
            }
        }
    }

    /// The ledger stays representable all through the batch `ts`.
    pub open spec fn accepts(self, ts: Seq<Transaction>) -> bool {
        forall|n: int| 0 <= n <= ts.len() ==> (#[trigger] self.apply_all(ts.take(n))).representable()
    }
}

/// The entries of the batch `ts` that belong to `client`, in order.
pub open spec fn entries_of(ts: Seq<Transaction>, client: u16) -> Seq<Transaction> {
    ts.filter(|t: Transaction| t.client == client)
}

/// The failures `errors` with each position moved up by `offset`.
pub open spec fn shifted(errors: Seq<(usize, Error)>, offset: nat) -> Seq<(usize, Error)> {
    errors.map_values(|failure: (usize, Error)| ((failure.0 + offset) as usize, failure.1))
}

/// The largest magnitude that a transaction amount can have.
pub open spec fn amount_limit() -> int {
    0x8000_0000_0000_0000
}

} // verus!
