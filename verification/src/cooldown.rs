//! The recovery timer of one action, with stored charges.

use vstd::prelude::*;
use crate::quantity::Quantity;

verus! {

/// The error of triggering a cooldown that holds no charge.
#[derive(Clone, Copy, Debug, PartialEq, Eq, Structural)]
pub struct CooldownNotReady;

/// The mathematical state of a [`Cooldown`]; times are in thousandths of a
/// second.
pub struct CooldownView {
    /// The time that one charge takes to recover.
    pub duration: int,
    /// The time left until the next charge is ready.
    pub remaining: int,
    /// The uses that are available now.
    pub charges: int,
    /// The most uses that can be stored.
    pub max_charges: int,
}

impl CooldownView {
    /// The state is one that a cooldown can be in: times are not negative, the
    /// charges lie between zero and the capacity, the capacity is at least
    /// one, and nothing is left to wait for while all charges are there.
    pub open spec fn wf(self) -> bool {
        &&& 0 <= self.duration
        &&& 0 <= self.remaining
        &&& 0 <= self.charges <= self.max_charges
        &&& 1 <= self.max_charges
        &&& self.charges == self.max_charges ==> self.remaining == 0
    }

    /// The wait for the next charge is no longer than one full recovery.
    pub open spec fn within_duration(self) -> bool {
        self.remaining <= self.duration
    }

    /// The fully charged state for a recovery time and a capacity.
    pub open spec fn full(duration: int, max_charges: int) -> CooldownView {
        CooldownView { duration, remaining: 0, charges: max_charges, max_charges }
    }

    /// At least one charge is available.
    pub open spec fn ready(self) -> bool {
        self.charges > 0
    }

    /// The state after spending one charge. Spending from a full cooldown that
    /// was not counting down starts the countdown for the charge spent.
    pub open spec fn trigger(self) -> CooldownView {
        CooldownView {
            charges: self.charges - 1,
            remaining: if self.charges == self.max_charges && self.remaining == 0 {
                self.duration
            } else {
                self.remaining
            },
            ..self
        }
    }

    /// Grants one charge for each full recovery that has run out: as long as
    /// the time left is not positive and a charge is missing, a charge is added
    /// and the countdown starts again from where it ran out.
    pub open spec fn recharge(self) -> CooldownView
        decreases self.max_charges - self.charges,
    {
        if self.remaining <= 0 && self.charges < self.max_charges {
            CooldownView {
                charges: self.charges + 1,
                remaining: self.remaining + self.duration,
                ..self
            }.recharge()
        } else {
            self
        }
    }

    /// Stops the countdown of a cooldown that holds all its charges.
    pub open spec fn settle(self) -> CooldownView {
        if self.charges >= self.max_charges {
            CooldownView { remaining: 0, ..self }
        } else {
            self
        }
    }

    /// The state after `delta_time` has passed. A full cooldown does not
    /// change; otherwise the time left shrinks by `delta_time` and every
    /// recovery that ran out in that span grants its charge.
    pub open spec fn tick(self, delta_time: int) -> CooldownView {
        if self.charges < self.max_charges {
            CooldownView { remaining: self.remaining - delta_time, ..self }.recharge().settle()
        } else {
            self
        }
    }

    /// The fully charged state with the same recovery time and capacity.
    pub open spec fn refresh(self) -> CooldownView {
        CooldownView::full(self.duration, self.max_charges)
    }

    /// How many charges a span of `delta_time` grants to a cooldown with a
    /// positive recovery time: none before the time left has run out, then one
    /// and one more for each further full recovery, up to the capacity.
    pub open spec fn charges_granted(self, delta_time: int) -> int {
        if self.charges >= self.max_charges || delta_time < self.remaining {
            0
        } else {
            let earned = (delta_time - self.remaining) / self.duration + 1;
            if earned <= self.max_charges - self.charges {
                earned
            } else {
                self.max_charges - self.charges
            }
        }
    }
}

/// Recharging never takes a charge away nor passes the capacity, keeps the
/// recovery time and the capacity, and ends with time left unless all charges
/// are there. The countdown it ends with is no longer than the longer of the
/// countdown it began with and one recovery.
pub proof fn lemma_recharge_bounds(state: CooldownView)
    requires
        state.duration >= 0,
        state.charges <= state.max_charges,
    ensures
        state.recharge().duration == state.duration,
        state.recharge().max_charges == state.max_charges,
        state.charges <= state.recharge().charges <= state.max_charges,
        state.recharge().charges < state.max_charges ==> state.recharge().remaining > 0,
        state.recharge().remaining <= state.remaining || state.recharge().remaining
            <= state.duration,
        state.remaining > 0 ==> state.recharge() == state,
    decreases state.max_charges - state.charges,
{
    if state.remaining <= 0 && state.charges < state.max_charges {
        lemma_recharge_bounds(
            CooldownView {
                charges: state.charges + 1,
                remaining: state.remaining + state.duration,
                ..state
            },
        );
    }
}

/// The passing of time keeps a cooldown in a state that a cooldown can be
/// in: it never takes a charge away, never changes the recovery time or the
/// capacity, and a countdown within one recovery stays within it. Before the
/// time left has run out, the countdown moves on and no charge is granted.
pub proof fn lemma_tick_preserves(state: CooldownView, delta_time: int)
    requires
        state.wf(),
        delta_time >= 0,
    ensures
        state.tick(delta_time).wf(),
        state.tick(delta_time).duration == state.duration,
        state.tick(delta_time).max_charges == state.max_charges,
        state.tick(delta_time).charges >= state.charges,
        state.tick(delta_time).remaining <= state.remaining || state.tick(delta_time).remaining
            <= state.duration,
        state.within_duration() ==> state.tick(delta_time).within_duration(),
        state.charges < state.max_charges && delta_time < state.remaining ==> state.tick(
            delta_time,
        ) == (CooldownView { remaining: state.remaining - delta_time, ..state }),
{
    if state.charges < state.max_charges {
        lemma_recharge_bounds(CooldownView { remaining: state.remaining - delta_time, ..state });
    }
}

/// With a positive recovery time, recharging grants no charge while time is
/// left or no charge is missing, and otherwise one charge and one more for
/// each full recovery that the countdown has overrun, up to the capacity. The
/// countdown moves on by one recovery for each charge granted.
pub proof fn lemma_recharge(state: CooldownView)
    requires
        state.duration > 0,
        state.charges <= state.max_charges,
    ensures
        state.recharge().duration == state.duration,
        state.recharge().max_charges == state.max_charges,
        state.recharge().charges == state.charges + state.charges_granted(0),
        state.recharge().remaining == state.remaining + state.charges_granted(0)
            * state.duration,
        state.recharge().charges < state.max_charges ==> state.recharge().remaining > 0,
    decreases state.max_charges - state.charges,
{
    let d = state.duration;
    let r = state.remaining;
    if r <= 0 && state.charges < state.max_charges {
        let next = CooldownView { charges: state.charges + 1, remaining: r + d, ..state };
        lemma_recharge(next);
        let g = state.charges_granted(0);
        let h = next.charges_granted(0);
        vstd::arithmetic::div_mod::lemma_div_pos_is_pos(-r, d);
        if r + d > 0 {
            vstd::arithmetic::div_mod::lemma_basic_div(-r, d);
            assert(h == 0);
            assert(g == 1);
        } else if next.charges >= next.max_charges {
            assert(h == 0);
            assert(g == 1);
        } else {
            vstd::arithmetic::div_mod::lemma_div_minus_one(-r, d);
            assert((0 - (r + d)) / d == (-d + (-r)) / d);
            assert(g == h + 1);
        }
        assert(r + d + h * d == r + (h + 1) * d) by (nonlinear_arith);
    }
}

/// With a positive recovery time, a span of time grants the charges that
/// [`CooldownView::charges_granted`] counts. While a charge is still missing
/// afterwards, the time left is positive and has moved on by one recovery for
/// each charge granted; once all charges are there, no time is left.
pub proof fn lemma_tick_grants(state: CooldownView, delta_time: int)
    requires
        state.wf(),
        state.duration > 0,
        delta_time >= 0,
    ensures
        state.tick(delta_time).charges == state.charges + state.charges_granted(delta_time),
        state.tick(delta_time).charges <= state.max_charges,
        state.tick(delta_time).charges < state.max_charges ==> state.tick(delta_time).remaining
            == state.remaining - delta_time + state.charges_granted(delta_time) * state.duration
            && 0 < state.tick(delta_time).remaining,
        state.tick(delta_time).charges == state.max_charges ==> state.tick(delta_time).remaining
            == 0,
        state.tick(delta_time).wf(),
        state.within_duration() ==> state.tick(delta_time).within_duration(),
{
    if state.charges < state.max_charges {
        let started = CooldownView { remaining: state.remaining - delta_time, ..state };
        lemma_recharge(started);
        assert(started.charges_granted(0) == state.charges_granted(delta_time));
        let g = state.charges_granted(delta_time);
        let d = state.duration;
        if g > 0 && started.recharge().charges < state.max_charges {
            // The last recovery counted has not fully run out.
            let over = delta_time - state.remaining;
            vstd::arithmetic::div_mod::lemma_fundamental_div_mod(over, d);
            vstd::arithmetic::div_mod::lemma_mod_bound(over, d);
            assert(g == over / d + 1);
            assert(g * d == d * (over / d) + d) by (nonlinear_arith)
                requires
                    g == over / d + 1,
            ;
        }
        if g == 0 {
            assert(g * d == 0);
        }
    }
}

/// A cooldown with one charge is ready when it is made. Once triggered it
/// is not ready, and it is ready again exactly when the time that has passed
/// since is no less than its recovery time.
pub proof fn lemma_single_charge_cycle(duration: int, delta_time: int)
    requires
        duration >= 0,
        delta_time >= 0,
    ensures
        CooldownView::full(duration, 1).ready(),
        !CooldownView::full(duration, 1).trigger().ready(),
        CooldownView::full(duration, 1).trigger().remaining == duration,
        CooldownView::full(duration, 1).trigger().tick(delta_time).ready() <==> delta_time
            >= duration,
        delta_time >= duration ==> CooldownView::full(duration, 1).trigger().tick(delta_time)
            == CooldownView::full(duration, 1),
{
    let spent = CooldownView::full(duration, 1).trigger();
    let started = CooldownView { remaining: spent.remaining - delta_time, ..spent };
    reveal_with_fuel(CooldownView::recharge, 3);
    assert(spent.tick(delta_time) == started.recharge().settle());
}

/// Triggering a ready cooldown spends exactly one charge and leaves it in a
/// state that a cooldown can be in; a full cooldown starts counting down.
pub proof fn lemma_trigger_spends_one(state: CooldownView)
    requires
        state.wf(),
        state.ready(),
    ensures
        state.trigger().charges == state.charges - 1,
        state.trigger().wf(),
        state.charges == state.max_charges ==> state.trigger().remaining == state.duration,
        state.within_duration() ==> state.trigger().within_duration(),
{
}

/// The recovery timer of one action.
#[derive(Clone, Copy, Debug, PartialEq, Eq)]
pub struct Cooldown {
    duration: Quantity,
    remaining: Quantity,
    charges: u32,
    max_charges: u32,
}

impl View for Cooldown {
    type V = CooldownView;

    closed spec fn view(&self) -> CooldownView {
        CooldownView {
            duration: self.duration@,
            remaining: self.remaining@,
            charges: self.charges as int,
            max_charges: self.max_charges as int,
        }
    }
}

impl Cooldown {
    #[verifier::type_invariant]
    pub(crate) open spec fn inv(self) -> bool {
        self@.wf()
    }

    /// A cooldown with one charge, which is available at once.
    ///
    /// A recovery time cannot be negative.
    pub fn from_duration(duration: Quantity) -> (c: Cooldown)
        requires
            duration@ >= 0,
        ensures
            c@ == CooldownView::full(duration@, 1),
            c@.wf(),
    {
        Cooldown { duration, remaining: Quantity { thousandths: 0 }, charges: 1, max_charges: 1 }
    }

    /// A cooldown with one charge that takes `seconds` whole seconds to
    /// recover, available at once.
    pub fn from_seconds(seconds: u32) -> (c: Cooldown)
        ensures
            c@ == CooldownView::full(seconds * 1000, 1),
            c@.wf(),
    {
        let wide: i64 = seconds as i64;
        Cooldown::from_duration(Quantity { thousandths: wide * 1000 })
    }

    /// A cooldown with `max_charges` charges, all of them available.
    ///
    /// A recovery time cannot be negative, and a cooldown stores at least one
    /// charge.
    pub fn new_with_charges(duration: Quantity, max_charges: u32) -> (c: Cooldown)
        requires
            duration@ >= 0,
            max_charges >= 1,
        ensures
            c@ == CooldownView::full(duration@, max_charges as int),
            c@.wf(),
    {
        Cooldown {
            duration,
            remaining: Quantity { thousandths: 0 },
            charges: max_charges,
            max_charges,
        }
    }

    /// Whether a charge is available.
    pub fn ready(&self) -> (b: bool)
        ensures
            b == self@.ready(),
            self@.wf(),
    {
        proof {
            use_type_invariant(self);
        }
        self.charges > 0
    }

    /// The uses that are available now.
    pub fn charges(&self) -> (n: u32)
        ensures
            n == self@.charges,
            self@.wf(),
    {
        proof {
            use_type_invariant(self);
        }
        self.charges
    }

    /// The most uses that can be stored.
    pub fn max_charges(&self) -> (n: u32)
        ensures
            n == self@.max_charges,
    {
        self.max_charges
    }

    /// The time left until the next charge is ready.
    pub fn remaining(&self) -> (q: Quantity)
        ensures
            q@ == self@.remaining,
    {
        self.remaining
    }

    /// The time that one charge takes to recover.
    pub fn duration(&self) -> (q: Quantity)
        ensures
            q@ == self@.duration,
    {
        self.duration
    }

    /// Spends one charge. Without a charge nothing changes and the call fails.
    pub fn trigger(&mut self) -> (r: Result<(), CooldownNotReady>)
        ensures
            r is Ok <==> old(self)@.ready(),
            r is Ok ==> final(self)@ == old(self)@.trigger(),
            r is Err ==> final(self)@ == old(self)@,
            final(self)@.wf(),
            old(self)@.within_duration() ==> final(self)@.within_duration(),
    {
        proof {
            use_type_invariant(&*self);
        }
        if self.charges == 0 {
            Err(CooldownNotReady)
        } else {
            let remaining = if self.charges == self.max_charges && self.remaining.thousandths == 0 {
                self.duration
            } else {
                self.remaining
            };
            *self = Cooldown {
                duration: self.duration,
                remaining,
                charges: self.charges - 1,
                max_charges: self.max_charges,
            };
            Ok(())
        }
    }

    /// Lets `delta_time` pass. Elapsed time is never negative.
    ///
    /// A span that covers several recoveries grants a charge for each of them.
    pub fn tick(&mut self, delta_time: Quantity)
        requires
            delta_time@ >= 0,
        ensures
            final(self)@ == old(self)@.tick(delta_time@),
            final(self)@.wf(),
            old(self)@.within_duration() ==> final(self)@.within_duration(),
    {
        proof {
            use_type_invariant(&*self);
        }
        if self.charges < self.max_charges {
            let duration: i64 = self.duration.thousandths;
            let max_charges: u32 = self.max_charges;
            let mut charges: u32 = self.charges;
            let mut remaining: i64 = self.remaining.thousandths - delta_time.thousandths;
            let ghost start = CooldownView { remaining: remaining as int, ..self@ };
            while remaining <= 0 && charges < max_charges
                invariant
                    0 <= duration,
                    charges <= max_charges,
                    remaining <= duration || remaining <= start.remaining,
                    start.remaining <= old(self)@.remaining,
                    start.recharge() == (CooldownView {
                        charges: charges as int,
                        remaining: remaining as int,
                        ..start
                    }).recharge(),
                    start.duration == duration,
                    start.max_charges == max_charges,
                decreases max_charges - charges,
            {
                charges = charges + 1;
                remaining = remaining + duration;
            }
            if charges >= max_charges {
                remaining = 0;
            }
            *self = Cooldown {
                duration: self.duration,
                remaining: Quantity { thousandths: remaining },
                charges,
                max_charges,
            };
        }
    }

    /// Makes every charge available and stops the countdown.
    pub fn refresh(&mut self)
        ensures
            final(self)@ == old(self)@.refresh(),
            final(self)@.wf(),
            final(self)@.within_duration(),
    {
        proof {
            use_type_invariant(&*self);
        }
        *self = Cooldown {
            duration: self.duration,
            remaining: Quantity { thousandths: 0 },
            charges: self.max_charges,
            max_charges: self.max_charges,
        };
    }

    /// Changes the time that a charge takes to recover from now on. The
    /// charges and the time left stay as they are.
    ///
    /// A recovery time cannot be negative.
    pub fn set_duration(&mut self, new_duration: Quantity)
        requires
            new_duration@ >= 0,
        ensures
            final(self)@ == (CooldownView { duration: new_duration@, ..old(self)@ }),
            final(self)@.wf(),
    {
        proof {
            use_type_invariant(&*self);
        }
        self.duration = new_duration;
    }
}

} // verus!
