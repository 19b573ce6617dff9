//! What holds of every run.
//!
//! Each law is stated over the state machine of [`crate::model`], which the
//! engine is proved to follow, and holds for every state and every
//! transaction that its hypotheses admit.

use crate::model::{
    lemma_replay_in_two_parts, replay, replay_from, step, AccountState, LedgerState,
};
use crate::transaction::{LedgerError, TransactionType, TransactionView};
use vstd::prelude::*;

verus! {

impl LedgerState {
    /// Whether in every account the total is the sum of the available and the
    /// held funds.
    pub open spec fn balanced(self) -> bool {
        forall|c: u16| self.accounts.contains_key(c) ==> (#[trigger] self.accounts[c]).balanced()
    }

    /// Whether the balances of every client, the deposits and the disputed
    /// ids are those of `other`: the two states differ at most in which
    /// clients with an empty account they name.
    pub open spec fn same_ledger(self, other: LedgerState) -> bool {
        &&& forall|c: u16| #[trigger] self.account(c) == other.account(c)
        &&& self.deposits == other.deposits
        &&& self.disputed == other.disputed
    }
}

/// A transaction keeps every account balanced: if each total is the sum of
/// available and held funds before it, each is after it.
pub proof fn lemma_step_keeps_balance(s: LedgerState, t: TransactionView)
    requires
        s.balanced(),
        step(s, t) is Ok,
    ensures
        step(s, t).unwrap().balanced(),
{
    let next = step(s, t).unwrap();
    assert(s.account(t.client).balanced());
    assert forall|c: u16| next.accounts.contains_key(c) implies (
    #[trigger] next.accounts[c]).balanced() by {
        if c != t.client {
            assert(s.accounts.contains_key(c));
            assert(next.accounts[c] == s.accounts[c]);
        }
    }
}

/// In every account that a run hands out, whatever the log, the total is the
/// sum of the available and the held funds.
pub proof fn lemma_total_is_available_plus_held(txs: Seq<TransactionView>)
    requires
        replay(txs) is Ok,
    ensures
        replay(txs).unwrap().balanced(),
{
    lemma_replay_keeps_balance(LedgerState::initial(), txs);
}

/// A run keeps every account balanced, from whichever balanced state it
/// starts.
pub proof fn lemma_replay_keeps_balance(s: LedgerState, txs: Seq<TransactionView>)
    requires
        s.balanced(),
        replay_from(s, txs) is Ok,
    ensures
        replay_from(s, txs).unwrap().balanced(),
    decreases txs.len(),
{
    if txs.len() > 0 {
        lemma_replay_keeps_balance(s, txs.drop_last());
        lemma_step_keeps_balance(replay_from(s, txs.drop_last()).unwrap(), txs.last());
    }
}

/// A transaction changes the balances of no client but its own.
pub proof fn lemma_step_leaves_other_clients(s: LedgerState, t: TransactionView, c: u16)
    requires
        c != t.client,
        step(s, t) is Ok,
    ensures
        step(s, t).unwrap().accounts.contains_key(c) == s.accounts.contains_key(c),
        step(s, t).unwrap().account(c) == s.account(c),
{
}

/// A well-formed transaction for a client whose account is locked is ignored
/// entirely: the state after it is the state before it.
pub proof fn lemma_locked_client_is_ignored(s: LedgerState, t: TransactionView)
    requires
        s.account(t.client).locked,
        !t.lacks_amount(),
    ensures
        step(s, t) == Ok::<LedgerState, LedgerError>(s),
{
    assert(s.touched(t.client).accounts =~= s.accounts);
}

/// A locked account is final: no transaction, for its client or for another,
/// changes its available, held or total funds, or unlocks it.
pub proof fn lemma_step_leaves_locked_account(s: LedgerState, t: TransactionView, c: u16)
    requires
        s.account(c).locked,
        step(s, t) is Ok,
    ensures
        step(s, t).unwrap().account(c) == s.account(c),
{
}

/// Once an account is locked, no later part of the log changes it: after
/// every further run that succeeds the account is what it was.
pub proof fn lemma_locked_account_is_final(s: LedgerState, txs: Seq<TransactionView>, c: u16)
    requires
        s.account(c).locked,
        replay_from(s, txs) is Ok,
    ensures
        replay_from(s, txs).unwrap().account(c) == s.account(c),
    decreases txs.len(),
{
    if txs.len() > 0 {
        lemma_locked_account_is_final(s, txs.drop_last(), c);
        lemma_step_leaves_locked_account(replay_from(s, txs.drop_last()).unwrap(), txs.last(), c);
    }
}

/// Within one log: if an account is locked after the first `n`
/// transactions, it is the same account at the end of the log, whatever the
/// other transactions are.
pub proof fn lemma_locked_account_outlasts_the_log(txs: Seq<TransactionView>, n: int, c: u16)
    requires
        0 <= n <= txs.len(),
        replay(txs) is Ok,
        replay(txs.take(n)) is Ok ==> replay(txs.take(n)).unwrap().account(c).locked,
    ensures
        replay(txs.take(n)) is Ok,
        replay(txs).unwrap().account(c) == replay(txs.take(n)).unwrap().account(c),
{
    lemma_replay_in_two_parts(LedgerState::initial(), txs, n);
    lemma_locked_account_is_final(replay(txs.take(n)).unwrap(), txs.skip(n), c);
}

/// An ignored transaction changes no balance, no deposit and no dispute: it
/// only makes sure that its client has an account.
pub proof fn lemma_ignored_changes_nothing(s: LedgerState, client: u16)
    ensures
        s.touched(client).same_ledger(s),
        s.touched(client).accounts.dom() == s.accounts.dom().insert(client),
{
    assert(s.touched(client).accounts.dom() =~= s.accounts.dom().insert(client));
}

/// A dispute over an id that is already under dispute is ignored.
pub proof fn lemma_repeated_dispute_is_ignored(s: LedgerState, t: TransactionView)
    requires
        t.kind == TransactionType::Dispute,
        s.disputed.contains(t.tx),
    ensures
        step(s, t) == Ok::<LedgerState, LedgerError>(s.touched(t.client)),
        step(s, t).unwrap().same_ledger(s),
{
    lemma_ignored_changes_nothing(s, t.client);
}

/// A resolve or a chargeback of an id that is not under dispute is ignored.
pub proof fn lemma_settling_without_dispute_is_ignored(s: LedgerState, t: TransactionView)
    requires
        t.kind == TransactionType::Resolve || t.kind == TransactionType::Chargeback,
        !s.disputed.contains(t.tx),
    ensures
        step(s, t) == Ok::<LedgerState, LedgerError>(s.touched(t.client)),
        step(s, t).unwrap().same_ledger(s),
{
    lemma_ignored_changes_nothing(s, t.client);
}

/// A withdrawal of exactly the available funds of an unlocked account
/// succeeds and leaves no available funds; the held funds stay and the total
/// falls by the amount.
pub proof fn lemma_withdrawal_of_all_available(s: LedgerState, t: TransactionView)
    requires
        t.kind == TransactionType::Withdrawal,
        t.amount == Some(s.account(t.client).available),
        !s.account(t.client).locked,
        s.account(t.client).balanced(),
        s.account(t.client).representable(),
    ensures
        step(s, t) is Ok,
        step(s, t).unwrap().account(t.client) == (AccountState {
            available: 0,
            held: s.account(t.client).held,
            total: s.account(t.client).total - t.amount.unwrap(),
            locked: false,
        }),
{
}

/// A withdrawal of more than the available funds is rejected: it fails no
/// run and changes no balance, no deposit and no dispute.
pub proof fn lemma_withdrawal_beyond_available_is_ignored(s: LedgerState, t: TransactionView)
    requires
        t.kind == TransactionType::Withdrawal,
        t.amount is Some,
        t.amount.unwrap() > s.account(t.client).available,
    ensures
        step(s, t) == Ok::<LedgerState, LedgerError>(s.touched(t.client)),
        step(s, t).unwrap().same_ledger(s),
{
    lemma_ignored_changes_nothing(s, t.client);
}

} // verus!
