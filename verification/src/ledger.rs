//! The executable engine.
//!
//! A [`Ledger`] holds the accounts, the deposits and the disputed ids of one
//! run. [`Ledger::apply`] takes one transaction and does exactly what
//! [`step`] says; [`process`] replays a whole log.

use crate::account::ClientData;
use crate::amount::Amount;
use crate::laws::{lemma_step_keeps_balance, lemma_total_is_available_plus_held};
use crate::model::{
    lemma_replay_in_two_parts, replay, step, AccountState, DepositRecord, LedgerState,
};
use crate::transaction::{LedgerError, Transaction, TransactionType, TransactionView};
use std::collections::{HashMap, HashSet};
use vstd::prelude::*;

verus! {

/// A deposit kept for later disputes: who made it and how much it was.
#[derive(Clone, Copy, Debug)]
pub struct StoredDeposit {
    pub client: u16,
    pub amount: Amount,
}

impl View for StoredDeposit {
    type V = DepositRecord;

    open spec fn view(&self) -> DepositRecord {
        DepositRecord { client: self.client, amount: self.amount@ }
    }
}

/// The accounts of a map of client data, each by its view.
pub open spec fn accounts_view(m: Map<u16, ClientData>) -> Map<u16, AccountState> {
    Map::new(|c: u16| m.contains_key(c), |c: u16| m[c]@)
}

/// The deposits of a map of stored deposits, each by its view.
pub open spec fn deposits_view(m: Map<u32, StoredDeposit>) -> Map<u32, DepositRecord> {
    Map::new(|id: u32| m.contains_key(id), |id: u32| m[id]@)
}

/// The transactions of a log, each by its view.
pub open spec fn log_view(txs: Seq<Transaction>) -> Seq<TransactionView> {
    Seq::new(txs.len(), |i: int| txs[i]@)
}

/// The state of one processing run.
pub struct Ledger {
    clients: HashMap<u16, ClientData>,
    deposits: HashMap<u32, StoredDeposit>,
    disputed: HashSet<u32>,
}

impl View for Ledger {
    type V = LedgerState;

    closed spec fn view(&self) -> LedgerState {
        LedgerState {
            accounts: accounts_view(self.clients@),
            deposits: deposits_view(self.deposits@),
            disputed: self.disputed@,
        }
    }
}

impl Ledger {
    /// A ledger that has seen no transaction.
    pub fn new() -> (r: Ledger)
        ensures
            r@ == LedgerState::initial(),
    {
        let r = Ledger { clients: HashMap::new(), deposits: HashMap::new(), disputed: HashSet::new() };
        assert(r@.accounts =~= LedgerState::initial().accounts);
        assert(r@.deposits =~= LedgerState::initial().deposits);
        r
    }

    /// The account of `client`, if a transaction has named the client.
    pub fn get(&self, client: u16) -> (r: Option<ClientData>)
        ensures
            r is Some <==> self@.accounts.contains_key(client),
            r matches Some(c) ==> c@ == self@.accounts[client],
    {
        match self.clients.get(&client) {
            Some(c) => Some(*c),
            None => None,
        }
    }

    /// The account of `client`: empty if no transaction has named the client.
    pub fn account(&self, client: u16) -> (r: ClientData)
        ensures
            r@ == self@.account(client),
    {
        match self.clients.get(&client) {
            Some(c) => *c,
            None => ClientData::default(),
        }
    }

    /// Decides whether `tx` applies to `account`, the account of its client,
    /// and if so which amount it moves.
    fn accepted_amount(&self, account: &ClientData, tx: &Transaction) -> (r: Option<Amount>)
        requires
            !tx@.lacks_amount(),
            account@ == self@.account(tx.client),
        ensures
            r is Some <==> self@.accepts(tx@),
            r matches Some(a) ==> a@ == self@.moved(tx@),
    {
        if account.locked {
            return None;
        }
        match tx.kind {
            TransactionType::Deposit => tx.amount,
            TransactionType::Withdrawal => {
                let amount = tx.amount.unwrap();
                if account.available.less_than(amount) {
                    None
                } else {
                    Some(amount)
                }
            },
            TransactionType::Dispute => {
                match self.deposits.get(&tx.tx) {
                    None => None,
                    Some(deposit) => {
                        if self.disputed.contains(&tx.tx) {
                            None
                        } else if account.available.less_than(deposit.amount) {
                            None
                        } else {
                            Some(deposit.amount)
                        }
                    },
                }
            },
            TransactionType::Resolve | TransactionType::Chargeback => {
                match self.deposits.get(&tx.tx) {
                    None => None,
                    Some(deposit) => {
                        if self.disputed.contains(&tx.tx) {
                            Some(deposit.amount)
                        } else {
                            None
                        }
                    },
                }
            },
        }
    }

    /// Applies one transaction.
    ///
    /// On success the ledger is in the state that [`step`] gives. On an
    /// error, which is the one that [`step`] gives, the ledger is unchanged.
    /// Either way, accounts whose totals were the sum of their available and
    /// held funds still are.
    pub fn apply(&mut self, tx: &Transaction) -> (r: Result<(), LedgerError>)
        ensures
            match step(old(self)@, tx@) {
                Ok(next) => r is Ok && final(self)@ == next,
                Err(e) => r == Err::<(), LedgerError>(e) && final(self)@ == old(self)@,
            },
            old(self)@.balanced() ==> final(self)@.balanced(),
    {
        proof {
            if old(self)@.balanced() && step(old(self)@, tx@) is Ok {
                lemma_step_keeps_balance(old(self)@, tx@);
            }
        }
        match tx.verify() {
            Err(e) => { return Err(e); },
            Ok(_) => {},
        }
        let account = self.account(tx.client);
        let amount = match self.accepted_amount(&account, tx) {
            None => {
                self.clients.insert(tx.client, account);
                assert(self@.accounts =~= old(self)@.touched(tx.client).accounts);
                return Ok(());
            },
            Some(amount) => amount,
        };
        let updated = match account.after(tx.kind, amount) {
            None => { return Err(LedgerError::Overflow { tx: tx.tx }); },
            Some(updated) => updated,
        };
        self.clients.insert(tx.client, updated);
        match tx.kind {
            TransactionType::Deposit => {
                self.deposits.insert(tx.tx, StoredDeposit { client: tx.client, amount });
            },
            TransactionType::Dispute => {
                self.disputed.insert(tx.tx);
            },
            TransactionType::Resolve | TransactionType::Chargeback => {
                self.disputed.remove(&tx.tx);
            },
            TransactionType::Withdrawal => {},
        }
        assert(self@.accounts =~= old(self)@.applied(tx@).accounts);
        assert(self@.deposits =~= old(self)@.applied(tx@).deposits);
        assert(self@.disputed =~= old(self)@.applied(tx@).disputed);
        Ok(())
    }

    /// Ends the run and hands out the accounts.
    pub fn into_accounts(self) -> (r: HashMap<u16, ClientData>)
        ensures
            accounts_view(r@) == self@.accounts,
    {
        self.clients
    }
}

/// Processes transactions.
///
/// Replays `txs` in order on an empty ledger. The result is the account of
/// every client that a transaction named, or the first error, in which case
/// no account is handed out.
pub fn process(txs: Vec<Transaction>) -> (r: Result<HashMap<u16, ClientData>, LedgerError>)
    ensures
        match replay(log_view(txs@)) {
            Ok(end) => r matches Ok(accounts) && accounts_view(accounts@) == end.accounts,
            Err(e) => r matches Err(err) && err == e,
        },
        r matches Ok(accounts) ==> forall|c: u16| #[trigger]
            accounts@.contains_key(c) ==> accounts@[c].total@ == accounts@[c].available@
                + accounts@[c].held@,
{
    let mut ledger = Ledger::new();
    let ghost log = log_view(txs@);
    let mut i: usize = 0;
    assert(log.take(0) =~= Seq::<TransactionView>::empty());
    while i < txs.len()
        invariant
            i <= txs.len(),
            log == log_view(txs@),
            replay(log.take(i as int)) == Ok::<LedgerState, LedgerError>(ledger@),
        decreases txs.len() - i,
    {
        proof {
            assert(log.take(i + 1).drop_last() =~= log.take(i as int));
            assert(log.take(i + 1).last() == txs@[i as int]@);
        }
        match ledger.apply(&txs[i]) {
            Err(e) => {
                proof {
                    lemma_replay_in_two_parts(LedgerState::initial(), log, i + 1);
                }
                return Err(e);
            },
            Ok(_) => {},
        }
        i += 1;
    }
    assert(log.take(i as int) =~= log);
    let accounts = ledger.into_accounts();
    proof {
        lemma_total_is_available_plus_held(log);
        assert forall|c: u16| #[trigger] accounts@.contains_key(c) implies accounts@[c].total@
            == accounts@[c].available@ + accounts@[c].held@ by {
            assert(accounts_view(accounts@)[c] == accounts@[c]@);
            assert(replay(log).unwrap().accounts[c].balanced());
        }
    }
    Ok(accounts)
}

} // verus!
