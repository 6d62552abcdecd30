//! What holds of every account and of every ledger, proved of the model that
//! the executable code is specified against.

use vstd::prelude::*;

use crate::account::Error;
use crate::model::{amount_limit, entries_of, shifted, AccountState, LedgerState};
use crate::transaction::{Transaction, Type};

verus! {

/// A transaction of a well-formed account's own client leaves the account
/// well formed; in particular its total is still the sum of its available and
/// held funds.
pub proof fn lemma_apply_keeps_wf(s: AccountState, t: Transaction)
    requires
        s.wf(),
        t.client == s.client,
    ensures
        s.apply(t).wf(),
        s.apply(t).balanced(),
        s.apply(t).client == s.client,
{
}

/// After any sequence of its client's transactions, whether each succeeded or
/// failed, a well-formed account is well formed: its total is the sum of its
/// available and held funds.
pub proof fn lemma_apply_all_keeps_wf(s: AccountState, ts: Seq<Transaction>)
    requires
        s.wf(),
        forall|i: int| 0 <= i < ts.len() ==> (#[trigger] ts[i]).client == s.client,
    ensures
        s.apply_all(ts).wf(),
        s.apply_all(ts).balanced(),
        s.apply_all(ts).client == s.client,
    decreases ts.len(),
{
    if ts.len() > 0 {
        lemma_apply_all_keeps_wf(s, ts.drop_last());
        lemma_apply_keeps_wf(s.apply_all(ts.drop_last()), ts.last());
    }
}

/// A withdrawal of more than is available fails with the amount requested and
/// the amount available, and leaves the balances and the records kept for
/// dispute as they were.
pub proof fn lemma_overdraft_rejected(s: AccountState, t: Transaction, requested: i64)
    requires
        s.representable(),
        !s.locked,
        t.kind == Type::Withdrawal,
        t.amount == Some(requested),
        requested > s.available,
    ensures
        s.apply(t) == s,
        s.outcome(t) == Err::<(), Error>(
            Error::InsufficientFunds(requested, s.available as i128),
        ),
        s.available as i128 == s.available,
{
}

/// A locked account rejects every transaction, whatever its type, and stays
/// as it is.
pub proof fn lemma_locked_rejects(s: AccountState, t: Transaction)
    requires
        s.locked,
    ensures
        s.apply(t) == s,
        s.outcome(t) == Err::<(), Error>(Error::AccountLocked),
{
}

/// Once locked, an account never changes again: it rejects each transaction
/// of any sequence and is the same after all of them.
pub proof fn lemma_locked_forever(s: AccountState, ts: Seq<Transaction>)
    requires
        s.locked,
    ensures
        s.apply_all(ts) == s,
        forall|n: int|
            0 <= n < ts.len() ==> (#[trigger] s.apply_all(ts.take(n))).outcome(ts[n]) == Err::<
                (),
                Error,
            >(Error::AccountLocked),
    decreases ts.len(),
{
    if ts.len() > 0 {
        lemma_locked_forever(s, ts.drop_last());
    }
    assert forall|n: int| 0 <= n < ts.len() implies (#[trigger] s.apply_all(ts.take(n))).outcome(
        ts[n],
    ) == Err::<(), Error>(Error::AccountLocked) by {
        lemma_locked_forever(s, ts.take(n));
    }
}

/// A dispute of a deposit followed by its resolution succeeds twice and
/// restores the available, held and total funds; the deposit cannot be
/// disputed again.
pub proof fn lemma_dispute_resolve_restores(
    s: AccountState,
    dispute: Transaction,
    resolve: Transaction,
)
    requires
        !s.locked,
        dispute.kind == Type::Dispute,
        resolve.kind == Type::Resolve,
        dispute.tx == resolve.tx,
        s.disputable.contains_key(dispute.tx),
        s.disputable[dispute.tx].kind == Type::Deposit,
    ensures
        s.outcome(dispute) == Ok::<(), Error>(()),
        s.apply(dispute).outcome(resolve) == Ok::<(), Error>(()),
        s.apply(dispute).apply(resolve).available == s.available,
        s.apply(dispute).apply(resolve).held == s.held,
        s.apply(dispute).apply(resolve).total == s.total,
        !s.apply(dispute).apply(resolve).locked,
        s.apply(dispute).apply(resolve).disputable == s.disputable.remove(dispute.tx),
{
}

/// A dispute of a deposit moves its amount from the available to the held
/// funds. A chargeback that follows locks the account and takes the amount
/// out of the held funds and out of the total, for good: the deposit is no
/// longer on record.
pub proof fn lemma_dispute_chargeback_locks(
    s: AccountState,
    dispute: Transaction,
    chargeback: Transaction,
)
    requires
        !s.locked,
        dispute.kind == Type::Dispute,
        chargeback.kind == Type::Chargeback,
        dispute.tx == chargeback.tx,
        s.disputable.contains_key(dispute.tx),
        s.disputable[dispute.tx].kind == Type::Deposit,
    ensures
        s.apply(dispute).available == s.available - s.disputable[dispute.tx].value(),
        s.apply(dispute).held == s.held + s.disputable[dispute.tx].value(),
        s.apply(dispute).total == s.total,
        s.apply(dispute).apply(chargeback).locked,
        s.apply(dispute).apply(chargeback).available == s.apply(dispute).available,
        s.apply(dispute).apply(chargeback).held == s.held,
        s.apply(dispute).apply(chargeback).total == s.total - s.disputable[dispute.tx].value(),
        s.apply(dispute).apply(chargeback).disputable == s.disputable.remove(dispute.tx),
        !s.apply(dispute).apply(chargeback).disputable.contains_key(dispute.tx),
{
}

/// A dispute, resolution or chargeback that refers to a transaction which is
/// not on record succeeds and changes nothing.
pub proof fn lemma_unknown_reference_ignored(s: AccountState, t: Transaction)
    requires
        !s.locked,
        t.kind == Type::Dispute || t.kind == Type::Resolve || t.kind == Type::Chargeback,
        !s.disputable.contains_key(t.tx),
    ensures
        s.apply(t) == s,
        s.outcome(t) == Ok::<(), Error>(()),
{
}

/// A failed transaction leaves the account as it was.
pub proof fn lemma_failure_changes_nothing(s: AccountState, t: Transaction)
    requires
        s.outcome(t) is Err,
    ensures
        s.apply(t) == s,
{
}

/// One transaction moves no balance by more than the largest amount.
pub proof fn lemma_apply_within(s: AccountState, t: Transaction, bound: int)
    requires
        s.within(bound),
    ensures
        s.apply(t).within(bound + amount_limit()),
{
}

/// A transaction leaves a well-formed ledger well formed: every account is
/// filed under its client, and its total is the sum of its available and held
/// funds.
pub proof fn lemma_ledger_apply_keeps_wf(l: LedgerState, t: Transaction)
    requires
        l.wf(),
    ensures
        l.apply(t).wf(),
{
    lemma_apply_keeps_wf(l.account(t.client), t);
}

/// After any batch, every account of a well-formed ledger is well formed: its
/// total is the sum of its available and held funds.
pub proof fn lemma_ledger_apply_all_keeps_wf(l: LedgerState, ts: Seq<Transaction>)
    requires
        l.wf(),
    ensures
        l.apply_all(ts).wf(),
        forall|client: u16| #[trigger]
            l.apply_all(ts).accounts.contains_key(client) ==> l.apply_all(
                ts,
            ).accounts[client].balanced(),
    decreases ts.len(),
{
    if ts.len() > 0 {
        lemma_ledger_apply_all_keeps_wf(l, ts.drop_last());
        lemma_ledger_apply_keeps_wf(l.apply_all(ts.drop_last()), ts.last());
    }
}

/// A transaction changes no account but that of its own client.
pub proof fn lemma_ledger_apply_elsewhere(l: LedgerState, t: Transaction, client: u16)
    requires
        client != t.client,
    ensures
        l.apply(t).accounts.contains_key(client) == l.accounts.contains_key(client),
        l.apply(t).account(client) == l.account(client),
{
}

/// Accounts are made and never removed: a client on record before a batch is
/// on record after it, and so is the client of every entry of the batch.
pub proof fn lemma_ledger_accounts_stay(l: LedgerState, ts: Seq<Transaction>, client: u16)
    requires
        l.accounts.contains_key(client) || exists|i: int|
            0 <= i < ts.len() && (#[trigger] ts[i]).client == client,
    ensures
        l.apply_all(ts).accounts.contains_key(client),
    decreases ts.len(),
{
    if ts.len() > 0 {
        if ts.last().client != client {
            if !l.accounts.contains_key(client) {
                let i = choose|i: int| 0 <= i < ts.len() && (#[trigger] ts[i]).client == client;
                assert(ts.drop_last()[i].client == client);
            }
            lemma_ledger_accounts_stay(l, ts.drop_last(), client);
        }
    }
}

/// What a batch makes of a client's account depends on that client's entries
/// alone: it is what the account makes of them, taken in order.
pub proof fn lemma_ledger_account_history(l: LedgerState, ts: Seq<Transaction>, client: u16)
    ensures
        l.apply_all(ts).account(client) == l.account(client).apply_all(entries_of(ts, client)),
    decreases ts.len(),
{
    reveal(Seq::filter);
    if ts.len() > 0 {
        let own = entries_of(ts.drop_last(), client);
        lemma_ledger_account_history(l, ts.drop_last(), client);
        if ts.last().client == client {
            assert(entries_of(ts, client) == own.push(ts.last()));
            assert(own.push(ts.last()).drop_last() == own);
        } else {
            assert(entries_of(ts, client) == own);
        }
    }
}

/// Two batches applied one after the other leave the ledger as the two
/// applied as one batch would.
pub proof fn lemma_ledger_apply_all_concat(
    l: LedgerState,
    first: Seq<Transaction>,
    second: Seq<Transaction>,
)
    ensures
        l.apply_all(first + second) == l.apply_all(first).apply_all(second),
    decreases second.len(),
{
    if second.len() == 0 {
        assert(first + second == first);
    } else {
        lemma_ledger_apply_all_concat(l, first, second.drop_last());
        assert((first + second).drop_last() == first + second.drop_last());
    }
}

/// Two batches applied one after the other report the failures that the two
/// applied as one batch would, those of the second under positions counted
/// from its own first entry.
pub proof fn lemma_ledger_errors_concat(
    l: LedgerState,
    first: Seq<Transaction>,
    second: Seq<Transaction>,
)
    requires
        first.len() + second.len() <= usize::MAX,
    ensures
        l.errors(first + second) == l.errors(first) + shifted(
            l.apply_all(first).errors(second),
            first.len(),
        ),
    decreases second.len(),
{
    let later = l.apply_all(first);
    if second.len() == 0 {
        assert(first + second == first);
        assert(shifted(later.errors(second), first.len()) == Seq::<(usize, Error)>::empty());
    } else {
        let init = second.drop_last();
        lemma_ledger_errors_concat(l, first, init);
        lemma_ledger_apply_all_concat(l, first, init);
        assert((first + second).drop_last() == first + init);
        match later.apply_all(init).outcome(second.last()) {
            Ok(_) => {},
            Err(e) => {
                assert(shifted(later.errors(init).push((second.len() as usize, e)), first.len())
                    == shifted(later.errors(init), first.len()).push(
                    ((first.len() + second.len()) as usize, e),
                ));
            },
        }
    }
}

/// A batch moves no balance by more than its length times the largest amount.
pub proof fn lemma_ledger_apply_all_within(l: LedgerState, ts: Seq<Transaction>, bound: int)
    requires
        0 <= bound,
        l.within(bound),
    ensures
        l.apply_all(ts).within(bound + ts.len() * amount_limit()),
    decreases ts.len(),
{
    if ts.len() > 0 {
        let earlier = l.apply_all(ts.drop_last());
        let reach = bound + (ts.len() - 1) * amount_limit();
        lemma_ledger_apply_all_within(l, ts.drop_last(), bound);
        assert(reach + amount_limit() == bound + ts.len() * amount_limit()) by (nonlinear_arith)
            requires
                reach == bound + (ts.len() - 1) * amount_limit(),
        ;
        assert(0 <= reach) by (nonlinear_arith)
            requires
                reach == bound + (ts.len() - 1) * amount_limit(),
                0 <= bound,
                ts.len() >= 1,
                amount_limit() >= 0,
        ;
        lemma_apply_within(earlier.account(ts.last().client), ts.last(), reach);
    }
}

/// A ledger takes a batch without leaving the range of its machine integers
/// if its balances are far enough from the ends of that range: by the length
/// of the batch times the largest amount.
pub proof fn lemma_accepts_within(l: LedgerState, ts: Seq<Transaction>, bound: int)
    requires
        0 <= bound,
        l.within(bound),
        bound + ts.len() * amount_limit() <= i128::MAX,
    ensures
        l.accepts(ts),
{
    assert forall|n: int| 0 <= n <= ts.len() implies (#[trigger] l.apply_all(
        ts.take(n),
    )).representable() by {
        lemma_ledger_apply_all_within(l, ts.take(n), bound);
        assert(bound + n * amount_limit() <= bound + ts.len() * amount_limit())
            by (nonlinear_arith)
            requires
                0 <= n <= ts.len(),
                amount_limit() >= 0,
        ;
    }
}

/// An empty ledger takes every batch that a machine can hold.
pub proof fn lemma_empty_accepts(ts: Seq<Transaction>)
    requires
        ts.len() <= u64::MAX,
    ensures
        LedgerState::empty().accepts(ts),
{
    assert(ts.len() * amount_limit() <= i128::MAX) by (nonlinear_arith)
        requires
            ts.len() <= 0xffff_ffff_ffff_ffff,
            amount_limit() == 0x8000_0000_0000_0000,
    ;
    lemma_accepts_within(LedgerState::empty(), ts, 0);
}

} // verus!
