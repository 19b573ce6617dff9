//! Client accounts and the effect of each kind of transaction on one.

use crate::amount::Amount;
use crate::model::AccountState;
use crate::transaction::TransactionType;
use vstd::prelude::*;

verus! {

/// Aggregated client data.
#[derive(Clone, Copy, Debug)]
pub struct ClientData {
    pub available: Amount,
    pub held: Amount,
    pub total: Amount,
    pub locked: bool,
}

impl View for ClientData {
    type V = AccountState;

    open spec fn view(&self) -> AccountState {
        AccountState {
            available: self.available@,
            held: self.held@,
            total: self.total@,
            locked: self.locked,
        }
    }
}

impl Default for ClientData {
    /// An unlocked account with no funds.
    fn default() -> (r: ClientData)
        ensures
            r@ == AccountState::empty(),
    {
        ClientData {
            available: Amount::zero(),
            held: Amount::zero(),
            total: Amount::zero(),
            locked: false,
        }
    }
}

impl ClientData {
    /// The account after a deposit of `amount`, or `None` when a balance
    /// would not fit.
    pub fn credited(&self, amount: Amount) -> (r: Option<ClientData>)
        ensures
            self@.credited(amount@).representable() ==> r is Some && r.unwrap()@
                == self@.credited(amount@),
            !self@.credited(amount@).representable() ==> r is None,
    {
        let available = match self.available.checked_add(amount) {
            Some(a) => a,
            None => { return None; },
        };
        let total = match self.total.checked_add(amount) {
            Some(a) => a,
            None => { return None; },
        };
        Some(ClientData { available, held: self.held, total, locked: self.locked })
    }

    /// The account after a withdrawal of `amount`, or `None` when a balance
    /// would not fit.
    pub fn debited(&self, amount: Amount) -> (r: Option<ClientData>)
        ensures
            self@.debited(amount@).representable() ==> r is Some && r.unwrap()@ == self@.debited(
                amount@,
            ),
            !self@.debited(amount@).representable() ==> r is None,
    {
        let available = match self.available.checked_sub(amount) {
            Some(a) => a,
            None => { return None; },
        };
        let total = match self.total.checked_sub(amount) {
            Some(a) => a,
            None => { return None; },
        };
        Some(ClientData { available, held: self.held, total, locked: self.locked })
    }

    /// The account after `amount` is frozen by a dispute, or `None` when a
    /// balance would not fit.
    pub fn frozen(&self, amount: Amount) -> (r: Option<ClientData>)
        ensures
            self@.frozen(amount@).representable() ==> r is Some && r.unwrap()@ == self@.frozen(
                amount@,
            ),
            !self@.frozen(amount@).representable() ==> r is None,
    {
        let available = match self.available.checked_sub(amount) {
            Some(a) => a,
            None => { return None; },
        };
        let held = match self.held.checked_add(amount) {
            Some(a) => a,
            None => { return None; },
        };
        Some(ClientData { available, held, total: self.total, locked: self.locked })
    }

    /// The account after a dispute over `amount` is resolved, or `None` when
    /// a balance would not fit.
    pub fn released(&self, amount: Amount) -> (r: Option<ClientData>)
        ensures
            self@.released(amount@).representable() ==> r is Some && r.unwrap()@
                == self@.released(amount@),
            !self@.released(amount@).representable() ==> r is None,
    {
        let available = match self.available.checked_add(amount) {
            Some(a) => a,
            None => { return None; },
        };
        let held = match self.held.checked_sub(amount) {
            Some(a) => a,
            None => { return None; },
        };
        Some(ClientData { available, held, total: self.total, locked: self.locked })
    }

    /// The locked account after a chargeback of `amount`, or `None` when a
    /// balance would not fit.
    pub fn charged_back(&self, amount: Amount) -> (r: Option<ClientData>)
        ensures
            self@.charged_back(amount@).representable() ==> r is Some && r.unwrap()@
                == self@.charged_back(amount@),
            !self@.charged_back(amount@).representable() ==> r is None,
    {
        let held = match self.held.checked_sub(amount) {
            Some(a) => a,
            None => { return None; },
        };
        let total = match self.total.checked_sub(amount) {
            Some(a) => a,
            None => { return None; },
        };
        Some(ClientData { available: self.available, held, total, locked: true })
    }

    /// The account after a transaction of the given kind moves `amount`, or
    /// `None` when a balance would not fit.
    pub fn after(&self, kind: TransactionType, amount: Amount) -> (r: Option<ClientData>)
        ensures
            self@.after(kind, amount@).representable() ==> r is Some && r.unwrap()@
                == self@.after(kind, amount@),
            !self@.after(kind, amount@).representable() ==> r is None,
    {
        match kind {
            TransactionType::Deposit => self.credited(amount),
            TransactionType::Withdrawal => self.debited(amount),
            TransactionType::Dispute => self.frozen(amount),
            TransactionType::Resolve => self.released(amount),
            TransactionType::Chargeback => self.charged_back(amount),
        }
    }
}

} // verus!
