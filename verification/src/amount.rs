//! Fixed-point quantities with eighteen decimal places.
//!
//! An [`Amount`] is the 192-bit two's-complement count of `10^-18` subunits
//! ("attos") that a `scrypto` `Decimal` holds, kept as three 64-bit limbs so
//! that contracts can speak of its integer value. Sums, differences, products
//! and quotients are computed by `Decimal` itself; this module states what
//! those operations return.

use scrypto::prelude::{CheckedAdd, CheckedDiv, CheckedMul, CheckedSub, Decimal, I192};
use vstd::prelude::*;

verus! {

/// Number of attos in one whole unit: `10^18`.
pub open spec fn attos_per_unit() -> int {
    1_000_000_000_000_000_000
}

/// Smallest attos count an [`Amount`] can hold: `-2^191`.
pub open spec fn min_attos() -> int {
    -0x8000_0000_0000_0000_0000_0000_0000_0000_0000_0000_0000_0000int
}

/// Largest attos count an [`Amount`] can hold: `2^191 - 1`.
pub open spec fn max_attos() -> int {
    0x7fff_ffff_ffff_ffff_ffff_ffff_ffff_ffff_ffff_ffff_ffff_ffffint
}

/// Whether an attos count fits in an [`Amount`].
pub open spec fn representable(v: int) -> bool {
    min_attos() <= v <= max_attos()
}

/// Whether an attos count survives the narrowing from 256 to 192 bits that
/// ends a `Decimal` product or quotient. The narrowing refuses every
/// magnitude of `2^191` and above, and with them the smallest representable
/// count.
pub open spec fn narrowable(v: int) -> bool {
    -max_attos() <= v <= max_attos()
}

/// Integer quotient rounded toward zero; meaningful for `b != 0`.
pub open spec fn quotient_toward_zero(a: int, b: int) -> int {
    if a >= 0 && b > 0 {
        a / b
    } else if a < 0 && b > 0 {
        -((-a) / b)
    } else if a >= 0 {
        -(a / (-b))
    } else {
        (-a) / (-b)
    }
}

/// Attos of the fixed-point product of two attos counts.
pub open spec fn decimal_product(a: int, b: int) -> int {
    quotient_toward_zero(a * b, attos_per_unit())
}

/// Attos of the fixed-point quotient of two attos counts; meaningful for `b != 0`.
pub open spec fn decimal_quotient(a: int, b: int) -> int {
    quotient_toward_zero(a * attos_per_unit(), b)
}

/// A signed fixed-point quantity, stored as little-endian 64-bit limbs of its
/// two's-complement attos count.
#[derive(Clone, Copy, Debug, PartialEq, Eq, Structural)]
pub struct Amount {
    pub lo: u64,
    pub mid: u64,
    pub hi: u64,
}

impl View for Amount {
    type V = int;

    /// The attos count.
    open spec fn view(&self) -> int {
        let raw = self.lo as int + self.mid as int * 0x1_0000_0000_0000_0000
            + self.hi as int * 0x1_0000_0000_0000_0000_0000_0000_0000_0000int;
        if self.hi < 0x8000_0000_0000_0000 {
            raw
        } else {
            raw - 0x1_0000_0000_0000_0000_0000_0000_0000_0000_0000_0000_0000_0000int
        }
    }
}

impl Amount {
    /// The quantity zero.
    pub fn zero() -> (r: Amount)
        ensures
            r@ == 0,
    {
        Amount { lo: 0, mid: 0, hi: 0 }
    }

    /// The non-negative quantity of `attos` subunits.
    pub fn from_attos(attos: u128) -> (r: Amount)
        ensures
            r@ == attos,
    {
        let lo: u64 = (attos % 0x1_0000_0000_0000_0000u128) as u64;
        let mid: u64 = (attos / 0x1_0000_0000_0000_0000u128) as u64;
        Amount { lo, mid, hi: 0 }
    }

    /// The quantity of `units` whole units.
    pub fn from_units(units: u64) -> (r: Amount)
        ensures
            r@ == units * attos_per_unit(),
    {
        let wide: u128 = units as u128;
        Amount::from_attos(wide * 1_000_000_000_000_000_000u128)
    }

    /// Whether the quantity is zero.
    pub fn is_zero(&self) -> (r: bool)
        ensures
            r == (self@ == 0),
    {
        self.lo == 0 && self.mid == 0 && self.hi == 0
    }

    /// Whether the quantity is below zero.
    pub fn is_negative(&self) -> (r: bool)
        ensures
            r == (self@ < 0),
    {
        self.hi >= 0x8000_0000_0000_0000u64
    }

    /// Whether this quantity does not exceed `other`.
    pub fn at_most(&self, other: &Amount) -> (r: bool)
        ensures
            r == (self@ <= other@),
    {
        let self_negative = self.is_negative();
        let other_negative = other.is_negative();
        if self_negative != other_negative {
            self_negative
        } else if self.hi != other.hi {
            self.hi < other.hi
        } else if self.mid != other.mid {
            self.mid < other.mid
        } else {
            self.lo <= other.lo
        }
    }

    /// Calls `Decimal::checked_add` on the two quantities. `Decimal` adds the
    /// underlying 192-bit attos counts and yields nothing when the sum leaves
    /// the 192-bit range.
    #[verifier::external_body]
    pub(crate) fn checked_add(self, rhs: Amount) -> (r: Option<Amount>)
        ensures
            match r {
                Some(sum) => sum@ == self@ + rhs@,
                None => !representable(self@ + rhs@),
            },
    {
        let a = Decimal::from_attos(I192::from_digits([self.lo, self.mid, self.hi]));
        let b = Decimal::from_attos(I192::from_digits([rhs.lo, rhs.mid, rhs.hi]));
        match a.checked_add(b) {
            Some(c) => {
                let d = c.attos().to_digits();
                Some(Amount { lo: d[0], mid: d[1], hi: d[2] })
            },
            None => None,
        }
    }

    /// Calls `Decimal::checked_sub` on the two quantities. `Decimal` subtracts
    /// the underlying 192-bit attos counts and yields nothing when the
    /// difference leaves the 192-bit range.
    #[verifier::external_body]
    pub(crate) fn checked_sub(self, rhs: Amount) -> (r: Option<Amount>)
        ensures
            match r {
                Some(difference) => difference@ == self@ - rhs@,
                None => !representable(self@ - rhs@),
            },
    {
        let a = Decimal::from_attos(I192::from_digits([self.lo, self.mid, self.hi]));
        let b = Decimal::from_attos(I192::from_digits([rhs.lo, rhs.mid, rhs.hi]));
        match a.checked_sub(b) {
            Some(c) => {
                let d = c.attos().to_digits();
                Some(Amount { lo: d[0], mid: d[1], hi: d[2] })
            },
            None => None,
        }
    }

    /// Calls `Decimal::checked_mul` on the two quantities. `Decimal` multiplies
    /// the attos counts in 256 bits, divides by `10^18` rounding toward zero,
    /// and narrows the result to 192 bits; it yields nothing when the
    /// magnitude of the result is `2^191` or more.
    #[verifier::external_body]
    pub(crate) fn checked_mul(self, rhs: Amount) -> (r: Option<Amount>)
        ensures
            match r {
                Some(product) => product@ == decimal_product(self@, rhs@) && narrowable(product@),
                None => !narrowable(decimal_product(self@, rhs@)),
            },
    {
        let a = Decimal::from_attos(I192::from_digits([self.lo, self.mid, self.hi]));
        let b = Decimal::from_attos(I192::from_digits([rhs.lo, rhs.mid, rhs.hi]));
        match a.checked_mul(b) {
            Some(c) => {
                let d = c.attos().to_digits();
                Some(Amount { lo: d[0], mid: d[1], hi: d[2] })
            },
            None => None,
        }
    }

    /// Calls `Decimal::checked_div` on the two quantities. `Decimal` scales the
    /// dividend's attos count by `10^18` in 256 bits, divides by the divisor's
    /// attos count rounding toward zero, and narrows the result to 192 bits;
    /// it yields nothing when the divisor is zero or the magnitude of the
    /// result is `2^191` or more.
    #[verifier::external_body]
    pub(crate) fn checked_div(self, rhs: Amount) -> (r: Option<Amount>)
        ensures
            match r {
                Some(quotient) => rhs@ != 0 && quotient@ == decimal_quotient(self@, rhs@)
                    && narrowable(quotient@),
                None => rhs@ == 0 || !narrowable(decimal_quotient(self@, rhs@)),
            },
    {
        let a = Decimal::from_attos(I192::from_digits([self.lo, self.mid, self.hi]));
        let b = Decimal::from_attos(I192::from_digits([rhs.lo, rhs.mid, rhs.hi]));
        match a.checked_div(b) {
            Some(c) => {
                let d = c.attos().to_digits();
                Some(Amount { lo: d[0], mid: d[1], hi: d[2] })
            },
            None => None,
        }
    }
}

/// Every [`Amount`] holds a representable attos count.
pub proof fn law_every_amount_is_representable(a: Amount)
    ensures
        representable(a@),
{
}

/// Two amounts with the same attos count have the same limbs.
pub proof fn law_attos_determine_the_amount(a: Amount, b: Amount)
    requires
        a@ == b@,
    ensures
        a == b,
{
}

} // verus!
