//! Deciding whether a pressed action may fire, and committing its effects.

use vstd::prelude::*;
use crate::cooldown::CooldownView;
use crate::cooldown_state::{ready_in, triggered, Abilitylike, CooldownState};
use crate::pool::{Pool, PoolView};
use crate::quantity::Quantity;

verus! {

/// Why an action may not fire.
#[derive(Clone, Copy, Debug, PartialEq, Eq, Structural)]
pub enum AbilityError {
    /// The action was not pressed just now.
    NotPressed,
    /// The cooldown of the action holds no charge.
    NotReady,
    /// The action costs more than the pool holds.
    InsufficientResource,
}

/// Whether the pool can pay `cost`. An action without a cost can always be
/// paid for.
pub open spec fn affordable(pool: PoolView, cost: Option<Quantity>) -> bool {
    match cost {
        Some(amount) => amount@ <= pool.current,
        None => true,
    }
}

/// The pool after paying `cost`.
pub open spec fn spent(pool: PoolView, cost: Option<Quantity>) -> PoolView {
    match cost {
        Some(amount) => pool.with_current(pool.current - amount@),
        None => pool,
    }
}

/// Whether the action may fire, and if not, the first reason in the order:
/// not pressed, no charge, not affordable.
pub open spec fn admission(
    just_pressed: bool,
    cooldowns: Map<u64, CooldownView>,
    action: u64,
    pool: PoolView,
    cost: Option<Quantity>,
) -> Result<(), AbilityError> {
    if !just_pressed {
        Err(AbilityError::NotPressed)
    } else if !ready_in(cooldowns, action) {
        Err(AbilityError::NotReady)
    } else if !affordable(pool, cost) {
        Err(AbilityError::InsufficientResource)
    } else {
        Ok(())
    }
}

/// Says whether the action may fire, and changes nothing.
pub fn ready_and_just_pressed<A: Abilitylike>(
    just_pressed: bool,
    action: &A,
    cooldowns: &CooldownState<A>,
    pool: &Pool,
    cost: Option<Quantity>,
) -> (r: Result<(), AbilityError>)
    ensures
        r == admission(just_pressed, cooldowns@, action.ordinal(), pool@, cost),
{
    if !just_pressed {
        return Err(AbilityError::NotPressed);
    }
    if !cooldowns.ready(action) {
        return Err(AbilityError::NotReady);
    }
    match cost {
        Some(amount) => {
            if amount.thousandths > pool.current().thousandths {
                return Err(AbilityError::InsufficientResource);
            }
        },
        None => {},
    }
    Ok(())
}

/// Fires the action if it may fire: pays its cost from the pool and spends a
/// charge of its cooldown. If it may not fire, neither the pool nor the
/// cooldowns change.
pub fn trigger_if_just_pressed<A: Abilitylike>(
    just_pressed: bool,
    action: &A,
    cooldowns: &mut CooldownState<A>,
    pool: &mut Pool,
    cost: Option<Quantity>,
) -> (r: Result<(), AbilityError>)
    ensures
        r == admission(just_pressed, old(cooldowns)@, action.ordinal(), old(pool)@, cost),
        r is Err ==> final(cooldowns)@ == old(cooldowns)@ && final(pool)@ == old(pool)@,
        r is Ok ==> final(cooldowns)@ == triggered(old(cooldowns)@, action.ordinal())
            && final(pool)@ == spent(old(pool)@, cost),
        final(pool)@.wf(),
{
    let admitted = ready_and_just_pressed(just_pressed, action, &*cooldowns, &*pool, cost);
    let balance: i128 = pool.current().thousandths as i128;
    match admitted {
        Ok(()) => {
            match cost {
                Some(amount) => {
                    let price: i128 = amount.thousandths as i128;
                    pool.store(balance - price);
                },
                None => {},
            }
            let _ = cooldowns.trigger(action);
            Ok(())
        },
        Err(reason) => Err(reason),
    }
}

/// An action that is pressed and ready but cannot be paid for is refused for
/// want of resource, so that firing it spends no charge.
pub proof fn lemma_unaffordable_is_refused(
    cooldowns: Map<u64, CooldownView>,
    action: u64,
    pool: PoolView,
    cost: Option<Quantity>,
)
    requires
        ready_in(cooldowns, action),
        !affordable(pool, cost),
    ensures
        admission(true, cooldowns, action, pool, cost) == Err::<(), AbilityError>(
            AbilityError::InsufficientResource,
        ),
{
}

} // verus!
