//! A ready-made pool for mana, which abilities are paid with.

use vstd::prelude::*;
use crate::pool::{MaxBelowZero, Pool, PoolView};
use crate::quantity::{clamp, quotient_toward_zero, representable, Quantity};

verus! {

/// An amount of mana, in thousandths of a point: the cost of an ability,
/// regeneration and the like.
#[derive(Clone, Copy, Debug, PartialEq, Eq, PartialOrd, Ord, Structural)]
pub struct Mana(pub i64);

impl View for Mana {
    type V = int;

    /// The amount in thousandths of a point.
    open spec fn view(&self) -> int {
        self.0 as int
    }
}

impl Default for Mana {
    /// No mana at all.
    fn default() -> (amount: Mana)
        ensures
            amount@ == 0,
    {
        Mana(0)
    }
}

impl Mana {
    /// The amount as a plain quantity.
    pub fn quantity(self) -> (q: Quantity)
        ensures
            q@ == self@,
    {
        Quantity { thousandths: self.0 }
    }

    /// The plain quantity `q` as an amount of mana.
    pub fn from_quantity(q: Quantity) -> (amount: Mana)
        ensures
            amount@ == q@,
    {
        Mana(q.thousandths)
    }

    /// The sum of two amounts.
    pub fn add(self, other: Mana) -> (amount: Mana)
        requires
            representable(self@ + other@),
        ensures
            amount@ == self@ + other@,
    {
        Mana(self.0 + other.0)
    }

    /// The difference of two amounts.
    pub fn subtract(self, other: Mana) -> (amount: Mana)
        requires
            representable(self@ - other@),
        ensures
            amount@ == self@ - other@,
    {
        Mana(self.0 - other.0)
    }

    /// The amount multiplied by a whole factor.
    pub fn scale(self, factor: i64) -> (amount: Mana)
        requires
            representable(self@ * factor),
        ensures
            amount@ == self@ * factor,
    {
        Mana(self.0 * factor)
    }

    /// The amount divided by a whole divisor, rounded toward zero.
    ///
    /// A zero divisor is a caller's error and is excluded.
    pub fn divide(self, divisor: i64) -> (amount: Mana)
        requires
            divisor != 0,
            representable(quotient_toward_zero(self@, divisor as int)),
        ensures
            amount@ == quotient_toward_zero(self@, divisor as int),
    {
        Mana::from_quantity(self.quantity().divide(divisor))
    }
}

/// The mana of a unit: a balance between zero and a capacity, with a rate of
/// regeneration.
#[derive(Clone, Copy, Debug, PartialEq, Eq)]
pub struct ManaPool {
    pool: Pool,
}

impl View for ManaPool {
    type V = PoolView;

    closed spec fn view(&self) -> PoolView {
        self.pool@
    }
}

impl ManaPool {
    /// A pool of capacity `max` whose balance is `current` limited to that
    /// capacity. A capacity below zero is refused.
    pub fn new(current: Mana, max: Mana, regen_per_second: Mana) -> (r: Result<
        ManaPool,
        MaxBelowZero,
    >)
        ensures
            r is Err <==> max@ < 0,
            r matches Ok(pool) ==> pool@ == (PoolView {
                current: clamp(current@, 0, max@),
                max: max@,
                regen_per_second: regen_per_second@,
            }) && pool@.wf(),
    {
        match Pool::new(current.quantity(), max.quantity(), regen_per_second.quantity()) {
            Ok(pool) => Ok(ManaPool { pool }),
            Err(e) => Err(e),
        }
    }

    /// The pool `pool` as a pool of mana.
    pub fn from_pool(pool: Pool) -> (r: ManaPool)
        ensures
            r@ == pool@,
    {
        ManaPool { pool }
    }

    /// The same balance, capacity and rate as a plain pool.
    pub fn pool(&self) -> (pool: Pool)
        ensures
            pool@ == self@,
    {
        self.pool
    }

    /// The mana that the unit has now.
    pub fn current(&self) -> (amount: Mana)
        ensures
            amount@ == self@.current,
            self@.wf(),
    {
        Mana::from_quantity(self.pool.current())
    }

    /// Sets the mana to `new_quantity` limited to what the pool can hold, and
    /// returns the mana that was stored.
    pub fn set_current(&mut self, new_quantity: Mana) -> (stored: Mana)
        ensures
            final(self)@ == old(self)@.with_current(new_quantity@),
            final(self)@.wf(),
            stored@ == final(self)@.current,
    {
        Mana::from_quantity(self.pool.set_current(new_quantity.quantity()))
    }

    /// The most mana that the unit can hold.
    pub fn max(&self) -> (amount: Mana)
        ensures
            amount@ == self@.max,
            self@.wf(),
    {
        Mana::from_quantity(self.pool.max())
    }

    /// Changes the capacity to `new_max` and limits the mana to it. A capacity
    /// below zero is refused and leaves the pool as it was.
    pub fn set_max(&mut self, new_max: Mana) -> (r: Result<(), MaxBelowZero>)
        ensures
            r is Err <==> new_max@ < 0,
            r is Err ==> final(self)@ == old(self)@,
            r is Ok ==> final(self)@ == old(self)@.with_max(new_max@),
            final(self)@.wf(),
    {
        self.pool.set_max(new_max.quantity())
    }

    /// The mana regenerated per second.
    pub fn regen_per_second(&self) -> (amount: Mana)
        ensures
            amount@ == self@.regen_per_second,
    {
        Mana::from_quantity(self.pool.regen_per_second())
    }

    /// Sets the mana regenerated per second, which may be of any sign.
    pub fn set_regen_per_second(&mut self, new_regen_per_second: Mana)
        ensures
            final(self)@ == (PoolView {
                regen_per_second: new_regen_per_second@,
                ..old(self)@
            }),
            final(self)@.wf(),
    {
        self.pool.set_regen_per_second(new_regen_per_second.quantity());
    }

    /// Regenerates for `delta_time` thousandths of a second.
    pub fn regen_tick(&mut self, delta_time: Quantity)
        ensures
            final(self)@ == old(self)@.regen(delta_time@),
            final(self)@.wf(),
    {
        self.pool.regen_tick(delta_time);
    }
}

} // verus!
