//! The ledger as a mathematical state machine.
//!
//! Balances are unbounded integers of ten-thousandths. A state holds the
//! accounts, the deposits seen so far and the set of transaction ids under
//! dispute; [`step`] applies one transaction and [`replay`] a whole log.

use crate::amount::fits;
use crate::transaction::{LedgerError, TransactionType, TransactionView};
use vstd::prelude::*;

verus! {

/// One client's balances.
pub struct AccountState {
    /// Funds the client may withdraw or that can be put in dispute.
    pub available: int,
    /// Funds frozen while a dispute is open.
    pub held: int,
    /// The client's full balance.
    pub total: int,
    /// Set by a chargeback; a locked account never changes again.
    pub locked: bool,
}

impl AccountState {
    /// The account of a client that no transaction has named yet.
    pub open spec fn empty() -> AccountState {
        AccountState { available: 0, held: 0, total: 0, locked: false }
    }

    /// Whether the total is the sum of the available and the held funds.
    pub open spec fn balanced(self) -> bool {
        self.total == self.available + self.held
    }

    /// Whether each of the three balances can be held by an amount.
    pub open spec fn representable(self) -> bool {
        fits(self.available) && fits(self.held) && fits(self.total)
    }

    /// A deposit of `amount`.
    pub open spec fn credited(self, amount: int) -> AccountState {
        AccountState {
            available: self.available + amount,
            total: self.total + amount,
            ..self
        }
    }

    /// A withdrawal of `amount`.
    pub open spec fn debited(self, amount: int) -> AccountState {
        AccountState {
            available: self.available - amount,
            total: self.total - amount,
            ..self
        }
    }

    /// A dispute over a deposit of `amount`: the funds are frozen.
    pub open spec fn frozen(self, amount: int) -> AccountState {
        AccountState { available: self.available - amount, held: self.held + amount, ..self }
    }

    /// The resolution of a dispute over `amount`: the funds are released.
    pub open spec fn released(self, amount: int) -> AccountState {
        AccountState { available: self.available + amount, held: self.held - amount, ..self }
    }

    /// A chargeback of `amount`: the frozen funds leave the account, which
    /// is locked.
    pub open spec fn charged_back(self, amount: int) -> AccountState {
        AccountState {
            held: self.held - amount,
            total: self.total - amount,
            locked: true,
            ..self
        }
    }

    /// The account after a transaction of the given kind moves `amount`.
    pub open spec fn after(self, kind: TransactionType, amount: int) -> AccountState {
        match kind {
            TransactionType::Deposit => self.credited(amount),
            TransactionType::Withdrawal => self.debited(amount),
            TransactionType::Dispute => self.frozen(amount),
            TransactionType::Resolve => self.released(amount),
            TransactionType::Chargeback => self.charged_back(amount),
        }
    }
}

/// A deposit kept for later disputes.
pub struct DepositRecord {
    pub client: u16,
    pub amount: int,
}

/// Everything the engine knows between two transactions.
pub struct LedgerState {
    /// The accounts, one per client that a transaction has named.
    pub accounts: Map<u16, AccountState>,
    /// Every deposit applied so far, by transaction id.
    pub deposits: Map<u32, DepositRecord>,
    /// The ids of the deposits under dispute.
    pub disputed: Set<u32>,
}

impl LedgerState {
    /// The state before the first transaction.
    pub open spec fn initial() -> LedgerState {
        LedgerState { accounts: Map::empty(), deposits: Map::empty(), disputed: Set::empty() }
    }

    /// The account of `client`, which is empty until a transaction names the
    /// client.
    pub open spec fn account(self, client: u16) -> AccountState {
        if self.accounts.contains_key(client) {
            self.accounts[client]
        } else {
            AccountState::empty()
        }
    }

    /// Whether `t` changes the balances of its client. A transaction is
    /// ignored when the account is locked, and otherwise:
    ///
    /// - a deposit always applies;
    /// - a withdrawal applies while the available funds cover it;
    /// - a dispute applies to a known deposit that is not under dispute,
    ///   and only while the client's available funds cover that deposit;
    /// - a resolve or a chargeback applies to a known deposit under dispute.
    pub open spec fn accepts(self, t: TransactionView) -> bool
        recommends
            !t.lacks_amount(),
    {
        let account = self.account(t.client);
        !account.locked && match t.kind {
            TransactionType::Deposit => true,
            TransactionType::Withdrawal => account.available - t.amount.unwrap() >= 0,
            TransactionType::Dispute => self.deposits.contains_key(t.tx)
                && !self.disputed.contains(t.tx) && account.available
                >= self.deposits[t.tx].amount,
            TransactionType::Resolve | TransactionType::Chargeback => self.deposits.contains_key(
                t.tx,
            ) && self.disputed.contains(t.tx),
        }
    }

    /// The amount that `t` moves: its own for a deposit or a withdrawal, that
    /// of the deposit it refers to for the three dispute records.
    pub open spec fn moved(self, t: TransactionView) -> int
        recommends
            !t.lacks_amount(),
            self.accepts(t),
    {
        if t.kind.needs_amount() {
            t.amount.unwrap()
        } else {
            self.deposits[t.tx].amount
        }
    }

    /// The account of `t`'s client once `t`, which the state accepts, is
    /// applied.
    pub open spec fn updated_account(self, t: TransactionView) -> AccountState
        recommends
            !t.lacks_amount(),
            self.accepts(t),
    {
        self.account(t.client).after(t.kind, self.moved(t))
    }

    /// The deposits once the accepted `t` is applied: a deposit is recorded
    /// under its id, in place of an earlier one with that id.
    pub open spec fn updated_deposits(self, t: TransactionView) -> Map<u32, DepositRecord>
        recommends
            !t.lacks_amount(),
            self.accepts(t),
    {
        if t.kind == TransactionType::Deposit {
            self.deposits.insert(
                t.tx,
                DepositRecord { client: t.client, amount: t.amount.unwrap() },
            )
        } else {
            self.deposits
        }
    }

    /// The ids under dispute once the accepted `t` is applied.
    pub open spec fn updated_disputed(self, t: TransactionView) -> Set<u32>
        recommends
            self.accepts(t),
    {
        match t.kind {
            TransactionType::Dispute => self.disputed.insert(t.tx),
            TransactionType::Resolve | TransactionType::Chargeback => self.disputed.remove(t.tx),
            _ => self.disputed,
        }
    }

    /// The state that names `t`'s client and is otherwise unchanged: what an
    /// ignored transaction leaves behind.
    pub open spec fn touched(self, client: u16) -> LedgerState {
        LedgerState { accounts: self.accounts.insert(client, self.account(client)), ..self }
    }

    /// The state once the accepted `t` is applied.
    pub open spec fn applied(self, t: TransactionView) -> LedgerState
        recommends
            !t.lacks_amount(),
            self.accepts(t),
    {
        LedgerState {
            accounts: self.accounts.insert(t.client, self.updated_account(t)),
            deposits: self.updated_deposits(t),
            disputed: self.updated_disputed(t),
        }
    }
}

/// One transaction: the next state, or the error that aborts the run.
///
/// A deposit or withdrawal without an amount is an error. Otherwise the
/// transaction's client has an account from now on; the transaction is
/// ignored if the state does not accept it, and applied if it does, unless a
/// balance would then leave the range of an amount.
pub open spec fn step(s: LedgerState, t: TransactionView) -> Result<LedgerState, LedgerError> {
    if t.lacks_amount() {
        Err(LedgerError::MissingAmount { tx: t.tx })
    } else if !s.accepts(t) {
        Ok(s.touched(t.client))
    } else if !s.updated_account(t).representable() {
        Err(LedgerError::Overflow { tx: t.tx })
    } else {
        Ok(s.applied(t))
    }
}

/// The transactions of `txs` applied in order, from state `s`: the first
/// error ends the run.
pub open spec fn replay_from(s: LedgerState, txs: Seq<TransactionView>) -> Result<
    LedgerState,
    LedgerError,
>
    decreases txs.len(),
{
    if txs.len() == 0 {
        Ok(s)
    } else {
        match replay_from(s, txs.drop_last()) {
            Ok(before) => step(before, txs.last()),
            Err(e) => Err(e),
        }
    }
}

/// A whole log applied to the initial state.
pub open spec fn replay(txs: Seq<TransactionView>) -> Result<LedgerState, LedgerError> {
    replay_from(LedgerState::initial(), txs)
}

/// A run can be taken in two parts: replaying `txs` from `s` is replaying
/// its first `n` transactions and then, unless they fail, the others from
/// where the first part ends. So the first error ends the run, and every
/// part of a run that succeeds has succeeded.
pub proof fn lemma_replay_in_two_parts(s: LedgerState, txs: Seq<TransactionView>, n: int)
    requires
        0 <= n <= txs.len(),
    ensures
        replay_from(s, txs) == match replay_from(s, txs.take(n)) {
            Ok(reached) => replay_from(reached, txs.skip(n)),
            Err(e) => Err(e),
        },
    decreases txs.len(),
{
    if n == txs.len() {
        assert(txs.take(n) =~= txs);
        assert(txs.skip(n) =~= Seq::<TransactionView>::empty());
    } else {
        assert(txs.drop_last().take(n) =~= txs.take(n));
        assert(txs.drop_last().skip(n) =~= txs.skip(n).drop_last());
        assert(txs.skip(n).last() == txs.last());
        lemma_replay_in_two_parts(s, txs.drop_last(), n);
    }
}

} // verus!
