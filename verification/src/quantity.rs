//! Fixed-point magnitudes.

use vstd::prelude::*;
use std::cmp::Ordering;

verus! {

/// How many thousandths make up one whole unit.
pub const THOUSANDTHS_PER_UNIT: i64 = 1000;

/// A signed fixed-point magnitude, held as a whole number of thousandths.
///
/// The same type measures pool balances, regeneration rates and spans of time
/// (thousandths of a second).
#[derive(Clone, Copy, Debug, PartialEq, Eq, PartialOrd, Ord, Structural)]
pub struct Quantity {
    /// The magnitude in thousandths of a unit.
    pub thousandths: i64,
}

impl View for Quantity {
    type V = int;

    /// The magnitude in thousandths, as a mathematical integer.
    open spec fn view(&self) -> int {
        self.thousandths as int
    }
}

/// Whether `v` is a magnitude that a [`Quantity`] can hold.
pub open spec fn representable(v: int) -> bool {
    i64::MIN <= v <= i64::MAX
}

/// `v` limited to the closed range from `low` to `high`.
pub open spec fn clamp(v: int, low: int, high: int) -> int {
    if v < low {
        low
    } else if v > high {
        high
    } else {
        v
    }
}

/// A limited value lies within the limits, and limiting it once more changes
/// nothing.
pub proof fn lemma_clamp_idempotent(v: int, low: int, high: int)
    requires
        low <= high,
    ensures
        low <= clamp(v, low, high) <= high,
        clamp(clamp(v, low, high), low, high) == clamp(v, low, high),
{
}

/// The quotient of `x` by `d`, rounded toward zero.
pub open spec fn quotient_toward_zero(x: int, d: int) -> int {
    if x >= 0 && d > 0 {
        x / d
    } else if x < 0 && d < 0 {
        (-x) / (-d)
    } else if x < 0 {
        -((-x) / d)
    } else {
        -(x / (-d))
    }
}

impl Quantity {
    /// The canonical zero.
    pub fn zero() -> (q: Quantity)
        ensures
            q@ == 0,
    {
        Quantity { thousandths: 0 }
    }

    /// The quantity of `thousandths` thousandths of a unit.
    pub fn from_thousandths(thousandths: i64) -> (q: Quantity)
        ensures
            q@ == thousandths,
    {
        Quantity { thousandths }
    }

    /// The quantity of `units` whole units.
    pub fn from_units(units: i32) -> (q: Quantity)
        ensures
            q@ == units * 1000,
    {
        let wide: i64 = units as i64;
        Quantity { thousandths: wide * THOUSANDTHS_PER_UNIT }
    }

    /// The magnitude in thousandths of a unit.
    pub fn thousandths(&self) -> (t: i64)
        ensures
            t == self@,
    {
        self.thousandths
    }

    /// The sum of two quantities.
    pub fn add(self, other: Quantity) -> (q: Quantity)
        requires
            representable(self@ + other@),
        ensures
            q@ == self@ + other@,
    {
        Quantity { thousandths: self.thousandths + other.thousandths }
    }

    /// The difference of two quantities.
    pub fn subtract(self, other: Quantity) -> (q: Quantity)
        requires
            representable(self@ - other@),
        ensures
            q@ == self@ - other@,
    {
        Quantity { thousandths: self.thousandths - other.thousandths }
    }

    /// The quantity multiplied by a whole factor.
    pub fn scale(self, factor: i64) -> (q: Quantity)
        requires
            representable(self@ * factor),
        ensures
            q@ == self@ * factor,
    {
        Quantity { thousandths: self.thousandths * factor }
    }

    /// The quantity divided by a whole divisor, rounded toward zero.
    ///
    /// A zero divisor is a caller's error and is excluded.
    pub fn divide(self, divisor: i64) -> (q: Quantity)
        requires
            divisor != 0,
            representable(quotient_toward_zero(self@, divisor as int)),
        ensures
            q@ == quotient_toward_zero(self@, divisor as int),
    {
        match self.thousandths.checked_div(divisor) {
            Some(thousandths) => Quantity { thousandths },
            None => self,
        }
    }

    /// The sum of two quantities, or nothing where it cannot be held.
    pub fn checked_add(self, other: Quantity) -> (r: Option<Quantity>)
        ensures
            r is Some <==> representable(self@ + other@),
            r matches Some(q) ==> q@ == self@ + other@,
    {
        match self.thousandths.checked_add(other.thousandths) {
            Some(thousandths) => Some(Quantity { thousandths }),
            None => None,
        }
    }

    /// The difference of two quantities, or nothing where it cannot be held.
    pub fn checked_subtract(self, other: Quantity) -> (r: Option<Quantity>)
        ensures
            r is Some <==> representable(self@ - other@),
            r matches Some(q) ==> q@ == self@ - other@,
    {
        match self.thousandths.checked_sub(other.thousandths) {
            Some(thousandths) => Some(Quantity { thousandths }),
            None => None,
        }
    }

    /// The quantity multiplied by a whole factor, or nothing where the
    /// product cannot be held.
    pub fn checked_scale(self, factor: i64) -> (r: Option<Quantity>)
        ensures
            r is Some <==> representable(self@ * factor),
            r matches Some(q) ==> q@ == self@ * factor,
    {
        match self.thousandths.checked_mul(factor) {
            Some(thousandths) => Some(Quantity { thousandths }),
            None => None,
        }
    }

    /// The quantity divided by a whole divisor, rounded toward zero, or
    /// nothing where the divisor is zero or the quotient cannot be held.
    pub fn checked_divide(self, divisor: i64) -> (r: Option<Quantity>)
        ensures
            r is Some <==> divisor != 0 && representable(
                quotient_toward_zero(self@, divisor as int),
            ),
            r matches Some(q) ==> q@ == quotient_toward_zero(self@, divisor as int),
    {
        match self.thousandths.checked_div(divisor) {
            Some(thousandths) => Some(Quantity { thousandths }),
            None => None,
        }
    }

    /// How this quantity stands to `other` in the order of the integers.
    pub fn compare(&self, other: &Quantity) -> (o: Ordering)
        ensures
            match o {
                Ordering::Less => self@ < other@,
                Ordering::Equal => self@ == other@,
                Ordering::Greater => self@ > other@,
            },
    {
        if self.thousandths < other.thousandths {
            Ordering::Less
        } else if self.thousandths == other.thousandths {
            Ordering::Equal
        } else {
            Ordering::Greater
        }
    }
}

} // verus!
