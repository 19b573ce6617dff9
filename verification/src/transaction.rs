//! Transaction records and the errors that abort a run.

use crate::amount::Amount;
use vstd::prelude::*;
use vstd::string::StringSliceAdditionalSpecFns;

verus! {

/// The transaction type.
#[derive(Clone, Copy, Debug, PartialEq, Eq, Structural)]
pub enum TransactionType {
    Deposit,
    Withdrawal,
    Dispute,
    Resolve,
    Chargeback,
}

/// Whether `b` is ASCII whitespace: a space, a tab, a line feed, a form feed
/// or a carriage return.
pub open spec fn is_blank(b: u8) -> bool {
    b == 0x20 || b == 0x09 || b == 0x0a || b == 0x0c || b == 0x0d
}

/// `b` with an ASCII capital letter turned into its small letter.
pub open spec fn lowered(b: u8) -> u8 {
    if 0x41 <= b <= 0x5a {
        (b + 0x20) as u8
    } else {
        b
    }
}

/// `s` without the ASCII whitespace at its two ends.
pub open spec fn trimmed(s: Seq<u8>) -> Seq<u8>
    decreases s.len(),
{
    if s.len() > 0 && is_blank(s[0]) {
        trimmed(s.skip(1))
    } else if s.len() > 0 && is_blank(s.last()) {
        trimmed(s.drop_last())
    } else {
        s
    }
}

/// `s` trimmed and in small letters: the form in which names are compared.
pub open spec fn normalized(s: Seq<u8>) -> Seq<u8> {
    trimmed(s).map_values(|b: u8| lowered(b))
}

impl TransactionType {
    /// Whether a record of this type must carry an amount: deposits and
    /// withdrawals do, the three dispute records do not.
    pub open spec fn needs_amount(self) -> bool {
        self == TransactionType::Deposit || self == TransactionType::Withdrawal
    }

    /// The name of the type in a record, in ASCII.
    pub open spec fn name(self) -> Seq<u8> {
        match self {
            TransactionType::Deposit => seq![
                'd' as u8, 'e' as u8, 'p' as u8, 'o' as u8,
                's' as u8, 'i' as u8, 't' as u8,
            ],
            TransactionType::Withdrawal => seq![
                'w' as u8, 'i' as u8, 't' as u8, 'h' as u8, 'd' as u8,
                'r' as u8, 'a' as u8, 'w' as u8, 'a' as u8, 'l' as u8,
            ],
            TransactionType::Dispute => seq![
                'd' as u8, 'i' as u8, 's' as u8, 'p' as u8,
                'u' as u8, 't' as u8, 'e' as u8,
            ],
            TransactionType::Resolve => seq![
                'r' as u8, 'e' as u8, 's' as u8, 'o' as u8,
                'l' as u8, 'v' as u8, 'e' as u8,
            ],
            TransactionType::Chargeback => seq![
                'c' as u8, 'h' as u8, 'a' as u8, 'r' as u8, 'g' as u8,
                'e' as u8, 'b' as u8, 'a' as u8, 'c' as u8, 'k' as u8,
            ],
        }
    }

    /// The type that the normalized bytes `s` name, if any.
    pub open spec fn named(s: Seq<u8>) -> Option<TransactionType> {
        if s == TransactionType::Deposit.name() {
            Some(TransactionType::Deposit)
        } else if s == TransactionType::Withdrawal.name() {
            Some(TransactionType::Withdrawal)
        } else if s == TransactionType::Dispute.name() {
            Some(TransactionType::Dispute)
        } else if s == TransactionType::Resolve.name() {
            Some(TransactionType::Resolve)
        } else if s == TransactionType::Chargeback.name() {
            Some(TransactionType::Chargeback)
        } else {
            None
        }
    }

    /// The name of the type, as bytes.
    fn name_bytes(self) -> (r: Vec<u8>)
        ensures
            r@ == self.name(),
    {
        let r = match self {
            TransactionType::Deposit => vec![
                'd' as u8, 'e' as u8, 'p' as u8, 'o' as u8,
                's' as u8, 'i' as u8, 't' as u8,
            ],
            TransactionType::Withdrawal => vec![
                'w' as u8, 'i' as u8, 't' as u8, 'h' as u8, 'd' as u8,
                'r' as u8, 'a' as u8, 'w' as u8, 'a' as u8, 'l' as u8,
            ],
            TransactionType::Dispute => vec![
                'd' as u8, 'i' as u8, 's' as u8, 'p' as u8,
                'u' as u8, 't' as u8, 'e' as u8,
            ],
            TransactionType::Resolve => vec![
                'r' as u8, 'e' as u8, 's' as u8, 'o' as u8,
                'l' as u8, 'v' as u8, 'e' as u8,
            ],
            TransactionType::Chargeback => vec![
                'c' as u8, 'h' as u8, 'a' as u8, 'r' as u8, 'g' as u8,
                'e' as u8, 'b' as u8, 'a' as u8, 'c' as u8, 'k' as u8,
            ],
        };
        assert(r@ =~= self.name());
        r
    }

    /// Reads the type of a record from its name: `deposit`, `withdrawal`,
    /// `dispute`, `resolve` or `chargeback`, in capital or small letters,
    /// with or without whitespace around it. Any other text names no type.
    pub fn from_name(text: &str) -> (r: Option<TransactionType>)
        ensures
            r == TransactionType::named(normalized(text.spec_bytes())),
    {
        let bytes = text.as_bytes();
        let (start, end) = trim(bytes);
        if names(bytes, start, end, TransactionType::Deposit) {
            Some(TransactionType::Deposit)
        } else if names(bytes, start, end, TransactionType::Withdrawal) {
            Some(TransactionType::Withdrawal)
        } else if names(bytes, start, end, TransactionType::Dispute) {
            Some(TransactionType::Dispute)
        } else if names(bytes, start, end, TransactionType::Resolve) {
            Some(TransactionType::Resolve)
        } else if names(bytes, start, end, TransactionType::Chargeback) {
            Some(TransactionType::Chargeback)
        } else {
            None
        }
    }
}

/// Whether `b` is ASCII whitespace.
fn blank(b: u8) -> (r: bool)
    ensures
        r == is_blank(b),
{
    b == 0x20 || b == 0x09 || b == 0x0a || b == 0x0c || b == 0x0d
}

/// Finds the part of `bytes` that is left when the whitespace at both ends
/// is taken away.
fn trim(bytes: &[u8]) -> (r: (usize, usize))
    ensures
        r.0 <= r.1 <= bytes@.len(),
        bytes@.subrange(r.0 as int, r.1 as int) == trimmed(bytes@),
{
    let mut start: usize = 0;
    assert(bytes@.skip(0) =~= bytes@);
    while start < bytes.len() && blank(bytes[start])
        invariant
            start <= bytes@.len(),
            trimmed(bytes@.skip(start as int)) == trimmed(bytes@),
        decreases bytes@.len() - start,
    {
        assert(bytes@.skip(start as int).skip(1) =~= bytes@.skip(start + 1));
        start += 1;
    }
    let mut end: usize = bytes.len();
    assert(bytes@.subrange(start as int, end as int) =~= bytes@.skip(start as int));
    while end > start && blank(bytes[end - 1])
        invariant
            start <= end <= bytes@.len(),
            start < bytes@.len() ==> !is_blank(bytes@[start as int]),
            trimmed(bytes@.subrange(start as int, end as int)) == trimmed(bytes@),
        decreases end - start,
    {
        assert(bytes@.subrange(start as int, end as int).drop_last() =~= bytes@.subrange(
            start as int,
            end - 1,
        ));
        end -= 1;
    }
    proof {
        lemma_bare_is_trimmed(bytes@.subrange(start as int, end as int));
    }
    (start, end)
}

/// A sequence with no whitespace at either end is its own trimmed form.
proof fn lemma_bare_is_trimmed(s: Seq<u8>)
    requires
        s.len() > 0 ==> !is_blank(s[0]) && !is_blank(s.last()),
    ensures
        trimmed(s) == s,
{
}

/// Whether the bytes from `start` to `end`, in small letters, are the name
/// of `kind`.
fn names(bytes: &[u8], start: usize, end: usize, kind: TransactionType) -> (r: bool)
    requires
        start <= end <= bytes@.len(),
    ensures
        r == (bytes@.subrange(start as int, end as int).map_values(|b: u8| lowered(b))
            == kind.name()),
{
    let name = kind.name_bytes();
    let ghost part = bytes@.subrange(start as int, end as int).map_values(|b: u8| lowered(b));
    if end - start != name.len() {
        return false;
    }
    let mut i: usize = 0;
    while i < name.len()
        invariant
            start <= end <= bytes@.len(),
            end - start == name@.len(),
            name@ == kind.name(),
            i <= name@.len(),
            part == bytes@.subrange(start as int, end as int).map_values(|b: u8| lowered(b)),
            forall|j: int| 0 <= j < i ==> part[j] == name@[j],
        decreases name@.len() - i,
    {
        let b = bytes[start + i];
        let low = if 0x41 <= b && b <= 0x5a {
            b + 0x20
        } else {
            b
        };
        assert(part[i as int] == low);
        if low != name[i] {
            return false;
        }
        i += 1;
    }
    assert(part =~= name@);
    true
}

/// Why a run was aborted.
#[derive(Clone, Copy, Debug, PartialEq, Eq, Structural)]
pub enum LedgerError {
    /// A deposit or withdrawal carried no amount: the input is corrupt.
    MissingAmount { tx: u32 },
    /// Applying the transaction would take a balance out of the range that
    /// an [`Amount`] can hold.
    Overflow { tx: u32 },
}

/// A transaction.
#[derive(Clone, Copy, Debug)]
pub struct Transaction {
    /// The transaction type.
    pub kind: TransactionType,
    /// The client id.
    pub client: u16,
    /// The transaction id.
    pub tx: u32,
    /// The amount.
    pub amount: Option<Amount>,
}

/// A transaction as the rules see it: its amount is a mathematical integer
/// of ten-thousandths.
pub struct TransactionView {
    pub kind: TransactionType,
    pub client: u16,
    pub tx: u32,
    pub amount: Option<int>,
}

impl TransactionView {
    /// Whether the record is a deposit or a withdrawal without an amount.
    pub open spec fn lacks_amount(self) -> bool {
        self.kind.needs_amount() && self.amount is None
    }
}

impl View for Transaction {
    type V = TransactionView;

    open spec fn view(&self) -> TransactionView {
        TransactionView {
            kind: self.kind,
            client: self.client,
            tx: self.tx,
            amount: match self.amount {
                Some(a) => Some(a@),
                None => None,
            },
        }
    }
}

impl Transaction {
    /// Makes sure the transaction is well-formed: fails exactly when a
    /// deposit or a withdrawal has no amount.
    pub fn verify(&self) -> (r: Result<(), LedgerError>)
        ensures
            self@.lacks_amount() ==> r == Err::<(), LedgerError>(
                LedgerError::MissingAmount { tx: self.tx },
            ),
            !self@.lacks_amount() ==> r is Ok,
    {
        match self.kind {
            TransactionType::Deposit | TransactionType::Withdrawal => {
                if self.amount.is_none() {
                    return Err(LedgerError::MissingAmount { tx: self.tx });
                }
            },
            _ => {},
        }
        Ok(())
    }
}

} // verus!
