//! Exact fixed-point money amounts.
//!
//! An [`Amount`] is a signed count of ten-thousandths: a decimal number with
//! exactly four fractional digits. Sums, differences and comparisons are
//! computed by `rust_decimal`, at that fixed scale, where its arithmetic never
//! rounds; a result that leaves the 64-bit range is reported, never wrapped.

use rust_decimal::Decimal;
use vstd::prelude::*;

verus! {

/// Number of fractional digits that every amount carries.
pub const SCALE: u32 = 4;

/// Whether `v`, a count of ten-thousandths, can be held by an [`Amount`].
pub open spec fn fits(v: int) -> bool {
    i64::MIN <= v <= i64::MAX
}

/// Ten-thousandths in one unit of the digit at position `scale` after the
/// decimal point: `10^(4 - scale)`, for `scale` from 0 to 4.
pub open spec fn scale_factor(scale: u32) -> int {
    if scale == 0 {
        10000
    } else if scale == 1 {
        1000
    } else if scale == 2 {
        100
    } else if scale == 3 {
        10
    } else {
        1
    }
}

/// A decimal amount with four fractional digits, held as ten-thousandths.
#[derive(Clone, Copy, Debug, PartialEq, Eq, Structural)]
pub struct Amount {
    pub units: i64,
}

impl View for Amount {
    type V = int;

    /// The amount as a mathematical integer of ten-thousandths.
    open spec fn view(&self) -> int {
        self.units as int
    }
}

/// Calls `Decimal::new` on each mantissa and adds the two decimals with `+`.
///
/// Both operands have the same scale and a mantissa of at most 64 bits, so
/// the addition neither rescales nor leaves 96 bits: the sum keeps the scale,
/// and its mantissa is the exact sum of the two mantissas.
#[verifier::external_body]
fn decimal_sum(a: i64, b: i64, scale: u32) -> (r: (i128, u32))
    requires
        scale <= 28,
    ensures
        r.0 == a + b,
        r.1 == scale,
{
    let d = Decimal::new(a, scale) + Decimal::new(b, scale);
    (d.mantissa(), d.scale())
}

/// Calls `Decimal::new` on each mantissa and subtracts the second decimal
/// from the first with `-`.
///
/// As for the sum: same scale, mantissas of at most 64 bits, so the
/// difference keeps the scale and its mantissa is the exact difference.
#[verifier::external_body]
fn decimal_difference(a: i64, b: i64, scale: u32) -> (r: (i128, u32))
    requires
        scale <= 28,
    ensures
        r.0 == a - b,
        r.1 == scale,
{
    let d = Decimal::new(a, scale) - Decimal::new(b, scale);
    (d.mantissa(), d.scale())
}

/// Calls `Decimal::new` on each mantissa and compares the two decimals with
/// `<`. At equal scales the decimals are ordered as their mantissas are.
#[verifier::external_body]
fn decimal_less(a: i64, b: i64, scale: u32) -> (r: bool)
    requires
        scale <= 28,
    ensures
        r == (a < b),
{
    Decimal::new(a, scale) < Decimal::new(b, scale)
}

/// The amount `mantissa / 10^scale` of a decimal at the scale of amounts, if
/// its mantissa fits.
fn from_decimal(mantissa: i128, scale: u32) -> (r: Option<Amount>)
    requires
        scale == SCALE,
    ensures
        fits(mantissa as int) ==> r == Some(Amount { units: mantissa as i64 }),
        !fits(mantissa as int) ==> r is None,
{
    if -0x8000_0000_0000_0000i128 <= mantissa && mantissa <= 0x7fff_ffff_ffff_ffffi128 {
        Some(Amount { units: mantissa as i64 })
    } else {
        None
    }
}

impl Amount {
    /// The amount zero.
    pub fn zero() -> (r: Amount)
        ensures
            r@ == 0,
    {
        Amount { units: 0 }
    }

    /// The amount of `units` ten-thousandths.
    pub fn from_units(units: i64) -> (r: Amount)
        ensures
            r@ == units,
    {
        Amount { units }
    }

    /// The amount `mantissa / 10^scale`, as in decimal notation: `new(75, 1)`
    /// is 7.5. `None` when `scale` exceeds four digits or the amount does not
    /// fit.
    pub fn new(mantissa: i64, scale: u32) -> (r: Option<Amount>)
        ensures
            scale <= SCALE && fits(mantissa * scale_factor(scale)) ==> r is Some && r.unwrap()@
                == mantissa * scale_factor(scale),
            !(scale <= SCALE && fits(mantissa * scale_factor(scale))) ==> r is None,
    {
        if scale > SCALE {
            return None;
        }
        let factor: i64 = if scale == 0 {
            10000
        } else if scale == 1 {
            1000
        } else if scale == 2 {
            100
        } else if scale == 3 {
            10
        } else {
            1
        };
        match mantissa.checked_mul(factor) {
            Some(units) => Some(Amount { units }),
            None => None,
        }
    }

    /// The sum of two amounts, or `None` when it does not fit.
    pub fn checked_add(self, rhs: Amount) -> (r: Option<Amount>)
        ensures
            fits(self@ + rhs@) ==> r is Some && r.unwrap()@ == self@ + rhs@,
            !fits(self@ + rhs@) ==> r is None,
    {
        let (mantissa, scale) = decimal_sum(self.units, rhs.units, SCALE);
        from_decimal(mantissa, scale)
    }

    /// The difference of two amounts, or `None` when it does not fit.
    pub fn checked_sub(self, rhs: Amount) -> (r: Option<Amount>)
        ensures
            fits(self@ - rhs@) ==> r is Some && r.unwrap()@ == self@ - rhs@,
            !fits(self@ - rhs@) ==> r is None,
    {
        let (mantissa, scale) = decimal_difference(self.units, rhs.units, SCALE);
        from_decimal(mantissa, scale)
    }

    /// Whether this amount is strictly less than `rhs`.
    pub fn less_than(self, rhs: Amount) -> (r: bool)
        ensures
            r == (self@ < rhs@),
    {
        decimal_less(self.units, rhs.units, SCALE)
    }
}

impl Default for Amount {
    /// The default amount is zero.
    fn default() -> (r: Amount)
        ensures
            r@ == 0,
    {
        Amount { units: 0 }
    }
}

} // verus!
