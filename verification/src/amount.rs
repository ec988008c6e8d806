//! Fixed-precision decimal amounts.
//!
//! An [`Amount`] is the pair of integers that `rust_decimal::Decimal` stores:
//! a signed mantissa of at most 96 bits and a scale between 0 and 28. It
//! stands for `mantissa / 10^scale`. The arithmetic itself is done by
//! `rust_decimal`; this module states what is known of it.
//!
//! Comparisons are stated exactly, over [`Amount::units`]. Sums and
//! differences are only named, by [`decimal_checked_add`] and
//! [`decimal_checked_sub`]: where the exact result has too many digits,
//! `rust_decimal` rounds it, and nothing here says how.
//!
//! Every `Amount` is in range by its type invariant, so turning one into a
//! `Decimal` never fails.

use rust_decimal::Decimal;
use vstd::prelude::*;
use vstd::std_specs::cmp::PartialEqSpecImpl;

verus! {

/// Largest scale a decimal can carry.
pub const MAX_SCALE: u32 = 28;

/// Largest magnitude of a mantissa: `2^96 - 1`.
pub const MAX_MANTISSA: i128 = 79_228_162_514_264_337_593_543_950_335;

/// `10^n` for `0 <= n <= 28`, the powers of ten that a scale can call for,
/// written out as a table. Below 0 it is 1, above 28 it is `10^28`.
pub open spec fn pow10(n: int) -> int {
    if n <= 0 {
        1
    } else if n == 1 {
        10
    } else if n == 2 {
        100
    } else if n == 3 {
        1_000
    } else if n == 4 {
        10_000
    } else if n == 5 {
        100_000
    } else if n == 6 {
        1_000_000
    } else if n == 7 {
        10_000_000
    } else if n == 8 {
        100_000_000
    } else if n == 9 {
        1_000_000_000
    } else if n == 10 {
        10_000_000_000
    } else if n == 11 {
        100_000_000_000
    } else if n == 12 {
        1_000_000_000_000
    } else if n == 13 {
        10_000_000_000_000
    } else if n == 14 {
        100_000_000_000_000
    } else if n == 15 {
        1_000_000_000_000_000
    } else if n == 16 {
        10_000_000_000_000_000
    } else if n == 17 {
        100_000_000_000_000_000
    } else if n == 18 {
        1_000_000_000_000_000_000
    } else if n == 19 {
        10_000_000_000_000_000_000
    } else if n == 20 {
        100_000_000_000_000_000_000
    } else if n == 21 {
        1_000_000_000_000_000_000_000
    } else if n == 22 {
        10_000_000_000_000_000_000_000
    } else if n == 23 {
        100_000_000_000_000_000_000_000
    } else if n == 24 {
        1_000_000_000_000_000_000_000_000
    } else if n == 25 {
        10_000_000_000_000_000_000_000_000
    } else if n == 26 {
        100_000_000_000_000_000_000_000_000
    } else if n == 27 {
        1_000_000_000_000_000_000_000_000_000
    } else {
        10_000_000_000_000_000_000_000_000_000
    }
}

/// A decimal number `mantissa / 10^scale`.
#[derive(Clone, Copy, Debug)]
pub struct Amount {
    mantissa: i128,
    scale: u32,
}

impl Amount {
    #[verifier::type_invariant]
    spec fn in_range(self) -> bool {
        &&& -MAX_MANTISSA <= self.mantissa <= MAX_MANTISSA
        &&& self.scale <= MAX_SCALE
    }

    /// The mantissa as a mathematical integer.
    pub closed spec fn spec_mantissa(self) -> int {
        self.mantissa as int
    }

    /// The scale: how many of the mantissa's digits follow the decimal point.
    pub closed spec fn spec_scale(self) -> int {
        self.scale as int
    }

    /// The number's value counted in units of `10^-28`, the finest step any
    /// amount can have. Two amounts are the same number exactly when their
    /// units agree.
    pub open spec fn units(self) -> int {
        self.spec_mantissa() * pow10(28 - self.spec_scale())
    }

    /// Whether the number is below zero.
    pub open spec fn is_negative(self) -> bool {
        self.spec_mantissa() < 0
    }

    /// The amount `mantissa / 10^scale`, or `None` where the mantissa needs
    /// more than 96 bits or the scale is above 28.
    pub fn new(mantissa: i128, scale: u32) -> (r: Option<Amount>)
        ensures
            r is Some <==> -MAX_MANTISSA <= mantissa <= MAX_MANTISSA && scale <= MAX_SCALE,
            r matches Some(a) ==> a.spec_mantissa() == mantissa && a.spec_scale() == scale,
    {
        if scale <= MAX_SCALE && -MAX_MANTISSA <= mantissa && mantissa <= MAX_MANTISSA {
            Some(Amount { mantissa, scale })
        } else {
            None
        }
    }

    /// Zero, with scale 0.
    pub closed spec fn spec_zero() -> Amount {
        Amount { mantissa: 0, scale: 0 }
    }

    /// Zero, with scale 0.
    #[verifier::when_used_as_spec(spec_zero)]
    pub fn zero() -> (r: Amount)
        ensures
            r == Amount::spec_zero(),
            r.spec_mantissa() == 0,
            r.spec_scale() == 0,
    {
        Amount { mantissa: 0, scale: 0 }
    }

    /// The mantissa: the number with its decimal point taken out.
    pub fn mantissa(&self) -> (m: i128)
        ensures
            m == self.spec_mantissa(),
            -MAX_MANTISSA <= m <= MAX_MANTISSA,
    {
        proof {
            use_type_invariant(self);
        }
        self.mantissa
    }

    /// The scale: how many digits follow the decimal point.
    pub fn scale(&self) -> (s: u32)
        ensures
            s == self.spec_scale(),
            s <= MAX_SCALE,
    {
        proof {
            use_type_invariant(self);
        }
        self.scale
    }

    /// `self + other` as `rust_decimal` computes it: `Decimal::checked_add`
    /// on the two numbers. The result is [`decimal_checked_add`] of them,
    /// `None` where the sum overflows.
    #[verifier::external_body]
    pub(crate) fn checked_add(self, other: Amount) -> (r: Option<Amount>)
        ensures
            r == decimal_checked_add(self, other),
    {
        let x = Decimal::from_i128_with_scale(self.mantissa, self.scale);
        let y = Decimal::from_i128_with_scale(other.mantissa, other.scale);
        match x.checked_add(y) {
            Some(d) => Some(Amount { mantissa: d.mantissa(), scale: d.scale() }),
            None => None,
        }
    }

    /// `self - other` as `rust_decimal` computes it: `Decimal::checked_sub`
    /// on the two numbers. The result is [`decimal_checked_sub`] of them,
    /// `None` where the difference overflows.
    #[verifier::external_body]
    pub(crate) fn checked_sub(self, other: Amount) -> (r: Option<Amount>)
        ensures
            r == decimal_checked_sub(self, other),
    {
        let x = Decimal::from_i128_with_scale(self.mantissa, self.scale);
        let y = Decimal::from_i128_with_scale(other.mantissa, other.scale);
        match x.checked_sub(y) {
            Some(d) => Some(Amount { mantissa: d.mantissa(), scale: d.scale() }),
            None => None,
        }
    }

    /// `self < other`, by `Decimal`'s `PartialOrd`. It compares the two
    /// numbers by value, whatever their scales: the operand with the smaller
    /// scale is brought to the other's scale first.
    #[verifier::external_body]
    pub(crate) fn less_than(self, other: Amount) -> (r: bool)
        ensures
            r == (self.units() < other.units()),
    {
        let x = Decimal::from_i128_with_scale(self.mantissa, self.scale);
        let y = Decimal::from_i128_with_scale(other.mantissa, other.scale);
        x < y
    }

    /// `self == other`, by `Decimal`'s `PartialEq`: true where the two are the
    /// same number, also where their scales differ (`1.0 == 1`).
    #[verifier::external_body]
    pub(crate) fn same_value(self, other: Amount) -> (r: bool)
        ensures
            r == (self.units() == other.units()),
    {
        let x = Decimal::from_i128_with_scale(self.mantissa, self.scale);
        let y = Decimal::from_i128_with_scale(other.mantissa, other.scale);
        x == y
    }

    /// Whether the amount is below zero, decided by comparing it with zero.
    pub fn below_zero(self) -> (r: bool)
        ensures
            r == self.is_negative(),
    {
        let zero = Amount::zero();
        proof {
            lemma_sign_of_units(self);
            lemma_sign_of_units(zero);
        }
        self.less_than(zero)
    }
}

/// What `Decimal::checked_add` returns for two decimals: their sum, or `None`
/// where it overflows. Where the exact sum has more digits than 96 bits hold,
/// `rust_decimal` rounds it to fewer decimal places.
pub uninterp spec fn decimal_checked_add(a: Amount, b: Amount) -> Option<Amount>;

/// What `Decimal::checked_sub` returns for two decimals: their difference, or
/// `None` where it overflows.
pub uninterp spec fn decimal_checked_sub(a: Amount, b: Amount) -> Option<Amount>;

/// Every power of ten in the table is positive.
pub proof fn lemma_pow10_positive(n: int)
    ensures
        pow10(n) >= 1,
{
}

/// Zero has mantissa 0 and scale 0, and no units.
pub proof fn lemma_zero()
    ensures
        Amount::spec_zero().spec_mantissa() == 0,
        Amount::spec_zero().spec_scale() == 0,
        Amount::spec_zero().units() == 0,
{
}

/// An amount's units have the sign of its mantissa.
pub proof fn lemma_sign_of_units(a: Amount)
    ensures
        a.units() < 0 <==> a.spec_mantissa() < 0,
        a.units() == 0 <==> a.spec_mantissa() == 0,
{
    let p = pow10(28 - a.spec_scale());
    let m = a.spec_mantissa();
    lemma_pow10_positive(28 - a.spec_scale());
    assert(m < 0 ==> m * p < 0) by (nonlinear_arith)
        requires
            p >= 1,
    ;
    assert(m > 0 ==> m * p > 0) by (nonlinear_arith)
        requires
            p >= 1,
    ;
    assert(m == 0 ==> m * p == 0) by (nonlinear_arith);
}

impl PartialEq for Amount {
    /// Equality of the numbers, not of their digits: `1.0 == 1`.
    fn eq(&self, other: &Amount) -> (r: bool) {
        self.same_value(*other)
    }
}

impl PartialEqSpecImpl for Amount {
    open spec fn obeys_eq_spec() -> bool {
        true
    }

    open spec fn eq_spec(&self, other: &Amount) -> bool {
        self.units() == other.units()
    }
}

} // verus!
