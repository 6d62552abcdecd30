use vstd::prelude::*;

verus! {

/// The type of a transaction.
#[derive(Clone, Copy, Debug, PartialEq, Eq, Structural)]
pub enum Type {
    /// A credit to the client's account
    Deposit,
    /// A debit to the client's account
    Withdrawal,
    /// A claim that the transaction was erroneous
    Dispute,
    /// A resolution to a dispute
    Resolve,
    /// A client's reversal to a transaction
    Chargeback,
}

/// A transaction record.
///
/// `amount` counts ten-thousandths of a currency unit. Deposits and
/// withdrawals carry one; disputes, resolutions and chargebacks refer to an
/// earlier record by its `tx` and carry none.
#[derive(Clone, Copy, Debug, PartialEq, Eq)]
pub struct Transaction {
    /// The type of the transaction
    pub kind: Type,
    /// The client identifier that the transaction belongs to
    pub client: u16,
    /// The transaction identifier
    pub tx: u32,
    /// The amount involved in the transaction
    pub amount: Option<i64>,
}

impl Transaction {
    /// Whether the record is one that an account keeps for later dispute: a
    /// deposit or a withdrawal that carries an amount.
    pub open spec fn is_movement(self) -> bool {
        (self.kind == Type::Deposit || self.kind == Type::Withdrawal) && self.amount is Some
    }

    /// The amount that the record carries, zero where it carries none.
    pub open spec fn value(self) -> int {
        match self.amount {
            Some(amount) => amount as int,
            None => 0,
        }
    }
}

} // verus!
