//! A clamped balance with a capacity and a rate of regeneration.

use vstd::prelude::*;
use crate::quantity::{clamp, Quantity};

verus! {

/// The error of asking for a capacity below zero.
#[derive(Clone, Copy, Debug, PartialEq, Eq, Structural)]
pub struct MaxBelowZero;

/// The mathematical state of a [`Pool`], in thousandths.
pub struct PoolView {
    /// The balance.
    pub current: int,
    /// The capacity.
    pub max: int,
    /// The change of the balance per second; of any sign.
    pub regen_per_second: int,
}

/// What a rate of `rate` per second amounts to over `delta_time` thousandths of
/// a second, rounded down to a whole number of thousandths.
pub open spec fn regen_gain(rate: int, delta_time: int) -> int {
    (rate * delta_time) / 1000
}

impl PoolView {
    /// The balance lies between zero and the capacity.
    pub open spec fn wf(self) -> bool {
        0 <= self.current <= self.max
    }

    /// The state after storing `value`, limited to what the pool can hold.
    pub open spec fn with_current(self, value: int) -> PoolView {
        PoolView { current: clamp(value, 0, self.max), ..self }
    }

    /// The state after changing the capacity to `max` and limiting the balance
    /// to it.
    pub open spec fn with_max(self, max: int) -> PoolView {
        PoolView { max, ..self }.with_current(self.current)
    }

    /// The state after regenerating for `delta_time` thousandths of a second.
    pub open spec fn regen(self, delta_time: int) -> PoolView {
        self.with_current(self.current + regen_gain(self.regen_per_second, delta_time))
    }

    /// The state after storing each of `values` in turn.
    pub open spec fn with_currents(self, values: Seq<int>) -> PoolView
        decreases values.len(),
    {
        if values.len() == 0 {
            self
        } else {
            self.with_currents(values.drop_last()).with_current(values.last())
        }
    }
}

/// Whatever value is stored in a pool whose capacity is not negative, the
/// balance then lies between zero and the capacity, and the capacity and the
/// rate are as before.
pub proof fn lemma_with_current_wf(pool: PoolView, value: int)
    requires
        0 <= pool.max,
    ensures
        pool.with_current(value).wf(),
        pool.with_current(value).max == pool.max,
        pool.with_current(value).regen_per_second == pool.regen_per_second,
{
}

/// Storing the balance that a pool already holds changes nothing: a value
/// that was limited once is not limited again.
pub proof fn lemma_with_current_idempotent(pool: PoolView, value: int)
    requires
        0 <= pool.max,
    ensures
        pool.with_current(value).with_current(pool.with_current(value).current)
            == pool.with_current(value),
        pool.wf() ==> pool.with_current(pool.current) == pool,
{
}

/// After any sequence of values has been stored, one after the other, the
/// balance lies between zero and the capacity.
pub proof fn lemma_with_currents_wf(pool: PoolView, values: Seq<int>)
    requires
        pool.wf(),
    ensures
        pool.with_currents(values).wf(),
        pool.with_currents(values).max == pool.max,
    decreases values.len(),
{
    if values.len() > 0 {
        lemma_with_currents_wf(pool, values.drop_last());
    }
}

/// Lowering the capacity below the balance lowers the balance to the new
/// capacity.
pub proof fn lemma_shrinking_max_lowers_current(pool: PoolView, max: int)
    requires
        pool.wf(),
        0 <= max < pool.current,
    ensures
        pool.with_max(max).current == max,
        pool.with_max(max).max == max,
        pool.with_max(max).wf(),
{
}

/// A capacity that still holds the balance leaves the balance as it is.
pub proof fn lemma_roomy_max_keeps_current(pool: PoolView, max: int)
    requires
        pool.wf(),
        pool.current <= max,
    ensures
        pool.with_max(max).current == pool.current,
        pool.with_max(max).wf(),
{
}

/// A balance of some resource, kept between zero and a capacity.
#[derive(Clone, Copy, Debug, PartialEq, Eq)]
pub struct Pool {
    current: Quantity,
    max: Quantity,
    regen_per_second: Quantity,
}

impl View for Pool {
    type V = PoolView;

    closed spec fn view(&self) -> PoolView {
        PoolView {
            current: self.current@,
            max: self.max@,
            regen_per_second: self.regen_per_second@,
        }
    }
}

impl Pool {
    #[verifier::type_invariant]
    spec fn inv(self) -> bool {
        0 <= self.current.thousandths <= self.max.thousandths
    }

    /// A pool of capacity `max` whose balance is `current` limited to that
    /// capacity. A capacity below zero is refused.
    pub fn new(current: Quantity, max: Quantity, regen_per_second: Quantity) -> (r: Result<
        Pool,
        MaxBelowZero,
    >)
        ensures
            r is Err <==> max@ < 0,
            r matches Ok(pool) ==> pool@ == (PoolView {
                current: clamp(current@, 0, max@),
                max: max@,
                regen_per_second: regen_per_second@,
            }) && pool@.wf(),
    {
        if max.thousandths < 0 {
            Err(MaxBelowZero)
        } else {
            let stored = limit(current.thousandths as i128, max);
            Ok(Pool { current: stored, max, regen_per_second })
        }
    }

    /// The balance.
    pub fn current(&self) -> (q: Quantity)
        ensures
            q@ == self@.current,
            self@.wf(),
    {
        proof {
            use_type_invariant(self);
        }
        self.current
    }

    /// The capacity.
    pub fn max(&self) -> (q: Quantity)
        ensures
            q@ == self@.max,
            self@.wf(),
    {
        proof {
            use_type_invariant(self);
        }
        self.max
    }

    /// The change of the balance per second.
    pub fn regen_per_second(&self) -> (q: Quantity)
        ensures
            q@ == self@.regen_per_second,
    {
        self.regen_per_second
    }

    /// Stores `target` limited to what the pool can hold, and returns what was
    /// stored.
    pub(crate) fn store(&mut self, target: i128) -> (stored: Quantity)
        ensures
            final(self)@ == old(self)@.with_current(target as int),
            final(self)@.wf(),
            stored@ == final(self)@.current,
    {
        proof {
            use_type_invariant(&*self);
        }
        let stored = limit(target, self.max);
        self.current = stored;
        stored
    }

    /// Sets the balance to `new_value` limited to what the pool can hold, and
    /// returns the balance that was stored.
    pub fn set_current(&mut self, new_value: Quantity) -> (stored: Quantity)
        ensures
            final(self)@ == old(self)@.with_current(new_value@),
            final(self)@.wf(),
            stored@ == final(self)@.current,
    {
        self.store(new_value.thousandths as i128)
    }

    /// Changes the capacity to `new_max` and limits the balance to it. A
    /// capacity below zero is refused and leaves the pool as it was.
    pub fn set_max(&mut self, new_max: Quantity) -> (r: Result<(), MaxBelowZero>)
        ensures
            r is Err <==> new_max@ < 0,
            r is Err ==> final(self)@ == old(self)@,
            r is Ok ==> final(self)@ == old(self)@.with_max(new_max@),
            final(self)@.wf(),
    {
        proof {
            use_type_invariant(&*self);
        }
        if new_max.thousandths < 0 {
            Err(MaxBelowZero)
        } else {
            let stored = limit(self.current.thousandths as i128, new_max);
            *self = Pool { current: stored, max: new_max, regen_per_second: self.regen_per_second };
            Ok(())
        }
    }

    /// Sets the change of the balance per second, which may be of any sign.
    pub fn set_regen_per_second(&mut self, value: Quantity)
        ensures
            final(self)@ == (PoolView { regen_per_second: value@, ..old(self)@ }),
            final(self)@.wf(),
    {
        proof {
            use_type_invariant(&*self);
        }
        self.regen_per_second = value;
    }

    /// Regenerates for `delta_time` thousandths of a second: the balance
    /// changes by the rate times the elapsed seconds, rounded down to a whole
    /// thousandth, and is limited to what the pool can hold.
    pub fn regen_tick(&mut self, delta_time: Quantity)
        ensures
            final(self)@ == old(self)@.regen(delta_time@),
            final(self)@.wf(),
    {
        proof {
            use_type_invariant(&*self);
        }
        let rate: i128 = self.regen_per_second.thousandths as i128;
        let elapsed: i128 = delta_time.thousandths as i128;
        proof {
            product_bound(rate as int, elapsed as int);
        }
        let product: i128 = rate * elapsed;
        let gain: i128 = match product.checked_div_euclid(1000) {
            Some(quotient) => quotient,
            None => 0,
        };
        let balance: i128 = self.current.thousandths as i128;
        self.store(balance + gain);
    }
}

/// `target` limited to the range from zero to `max`.
fn limit(target: i128, max: Quantity) -> (q: Quantity)
    requires
        max@ >= 0,
    ensures
        q@ == clamp(target as int, 0, max@),
{
    if target < 0 {
        Quantity { thousandths: 0 }
    } else if target > max.thousandths as i128 {
        max
    } else {
        Quantity { thousandths: target as i64 }
    }
}

/// The product of two 64-bit magnitudes stays well inside 128 bits.
proof fn product_bound(a: int, b: int)
    requires
        i64::MIN <= a <= i64::MAX,
        i64::MIN <= b <= i64::MAX,
    ensures
        -0x4000_0000_0000_0000_0000_0000_0000_0000 <= a * b
            <= 0x4000_0000_0000_0000_0000_0000_0000_0000,
{
    assert(-0x4000_0000_0000_0000_0000_0000_0000_0000 <= a * b
        <= 0x4000_0000_0000_0000_0000_0000_0000_0000) by (nonlinear_arith)
        requires
            -0x8000_0000_0000_0000 <= a <= 0x8000_0000_0000_0000,
            -0x8000_0000_0000_0000 <= b <= 0x8000_0000_0000_0000,
    ;
}

} // verus!
