use leafwing_abilities::ability::{ready_and_just_pressed, trigger_if_just_pressed, AbilityError};
use leafwing_abilities::cooldown::{Cooldown, CooldownNotReady};
use leafwing_abilities::cooldown_state::{Abilitylike, CooldownState};
use leafwing_abilities::pool::Pool;
use leafwing_abilities::quantity::Quantity;

#[derive(Clone, Copy, Debug, PartialEq)]
enum Spell {
    AddOne,
    Fireball,
}

impl Abilitylike for Spell {
    fn index(&self) -> u64 {
        self.ordinal()
    }

    fn ordinal(&self) -> u64 {
        match self {
            Spell::AddOne => 0,
            Spell::Fireball => 1,
        }
    }
}

const ADD_ONE: &Spell = &Spell::AddOne;
const FIREBALL: &Spell = &Spell::Fireball;

fn q(thousandths: i64) -> Quantity {
    Quantity::from_thousandths(thousandths)
}

fn setup(current: i64) -> (CooldownState<Spell>, Pool) {
    let mut cooldowns = CooldownState::new();
    cooldowns.set(FIREBALL, Cooldown::new_with_charges(q(2000), 2));
    let pool = Pool::new(q(current), q(10000), q(0)).unwrap();
    (cooldowns, pool)
}

#[test]
fn an_action_that_was_not_pressed_does_not_fire() {
    let (mut cooldowns, mut pool) = setup(5000);
    let before = pool;
    assert_eq!(
        trigger_if_just_pressed(false, FIREBALL, &mut cooldowns, &mut pool, Some(q(1000))),
        Err(AbilityError::NotPressed)
    );
    assert_eq!(pool, before);
    assert_eq!(cooldowns.get(FIREBALL).unwrap().charges(), 2);
}

#[test]
fn a_pressed_ready_affordable_action_fires() {
    let (mut cooldowns, mut pool) = setup(5000);
    assert_eq!(
        trigger_if_just_pressed(true, FIREBALL, &mut cooldowns, &mut pool, Some(q(1500))),
        Ok(())
    );
    assert_eq!(pool.current(), q(3500));
    assert_eq!(cooldowns.get(FIREBALL).unwrap().charges(), 1);
    assert_eq!(cooldowns.get(FIREBALL).unwrap().remaining(), q(2000));
}

#[test]
fn an_exhausted_cooldown_refuses_and_keeps_the_pool() {
    let (mut cooldowns, mut pool) = setup(5000);
    assert_eq!(cooldowns.trigger(FIREBALL), Ok(()));
    assert_eq!(cooldowns.trigger(FIREBALL), Ok(()));
    assert_eq!(
        trigger_if_just_pressed(true, FIREBALL, &mut cooldowns, &mut pool, Some(q(1500))),
        Err(AbilityError::NotReady)
    );
    assert_eq!(pool.current(), q(5000));
    assert_eq!(cooldowns.get(FIREBALL).unwrap().charges(), 0);
}

#[test]
fn an_unaffordable_cost_refuses_and_keeps_the_charges() {
    let (mut cooldowns, mut pool) = setup(1000);
    let cooldown_before = *cooldowns.get(FIREBALL).unwrap();
    assert_eq!(
        trigger_if_just_pressed(true, FIREBALL, &mut cooldowns, &mut pool, Some(q(1001))),
        Err(AbilityError::InsufficientResource)
    );
    assert_eq!(cooldowns.get(FIREBALL), Some(&cooldown_before));
    assert_eq!(cooldowns.get(FIREBALL).unwrap().charges(), 2);
    assert_eq!(pool.current(), q(1000));
}

#[test]
fn a_cost_equal_to_the_balance_is_affordable() {
    let (mut cooldowns, mut pool) = setup(1000);
    assert_eq!(
        trigger_if_just_pressed(true, FIREBALL, &mut cooldowns, &mut pool, Some(q(1000))),
        Ok(())
    );
    assert_eq!(pool.current(), q(0));
}

#[test]
fn an_action_without_a_cost_leaves_the_pool() {
    let (mut cooldowns, mut pool) = setup(0);
    assert_eq!(
        trigger_if_just_pressed(true, FIREBALL, &mut cooldowns, &mut pool, None),
        Ok(())
    );
    assert_eq!(pool.current(), q(0));
    assert_eq!(cooldowns.get(FIREBALL).unwrap().charges(), 1);
}

#[test]
fn a_negative_cost_refunds_up_to_the_capacity() {
    let (mut cooldowns, mut pool) = setup(9000);
    assert_eq!(
        trigger_if_just_pressed(true, FIREBALL, &mut cooldowns, &mut pool, Some(q(i64::MIN))),
        Ok(())
    );
    assert_eq!(pool.current(), q(10000));
}

#[test]
fn reasons_come_in_order() {
    let (mut cooldowns, pool) = setup(0);
    assert_eq!(cooldowns.trigger(FIREBALL), Ok(()));
    assert_eq!(cooldowns.trigger(FIREBALL), Ok(()));
    let cost = Some(q(1));
    assert_eq!(
        ready_and_just_pressed(false, FIREBALL, &cooldowns, &pool, cost),
        Err(AbilityError::NotPressed)
    );
    assert_eq!(
        ready_and_just_pressed(true, FIREBALL, &cooldowns, &pool, cost),
        Err(AbilityError::NotReady)
    );
    cooldowns.tick_all(q(2000));
    assert_eq!(
        ready_and_just_pressed(true, FIREBALL, &cooldowns, &pool, cost),
        Err(AbilityError::InsufficientResource)
    );
    assert_eq!(ready_and_just_pressed(true, FIREBALL, &cooldowns, &pool, None), Ok(()));
}

#[test]
fn ready_and_just_pressed_changes_nothing() {
    let (cooldowns, pool) = setup(5000);
    let before = pool;
    assert_eq!(
        ready_and_just_pressed(true, FIREBALL, &cooldowns, &pool, Some(q(1000))),
        Ok(())
    );
    assert_eq!(
        ready_and_just_pressed(true, FIREBALL, &cooldowns, &pool, Some(q(1000))),
        Ok(())
    );
    assert_eq!(pool, before);
    assert_eq!(cooldowns.get(FIREBALL), Some(&Cooldown::new_with_charges(q(2000), 2)));
}

#[test]
fn an_action_without_a_cooldown_fires_whenever_pressed() {
    let (mut cooldowns, mut pool) = setup(5000);
    for _ in 0..3 {
        assert_eq!(
            trigger_if_just_pressed(true, ADD_ONE, &mut cooldowns, &mut pool, Some(q(1000))),
            Ok(())
        );
    }
    assert_eq!(pool.current(), q(2000));
    assert_eq!(cooldowns.get(ADD_ONE), None);
}

#[test]
fn cookie_clicks_are_paced_by_the_cooldown_and_capped_by_the_pool() {
    let mut score = Pool::new(q(1000), q(3000), q(0)).unwrap();
    let mut cooldowns = CooldownState::new();
    cooldowns.set(ADD_ONE, Cooldown::from_duration(q(100)));
    let one = q(1000);

    cooldowns.tick_all(q(50));
    score.regen_tick(q(50));
    assert_eq!(cooldowns.trigger(ADD_ONE), Ok(()));
    score.set_current(score.current().add(one));
    assert_eq!(score.current(), q(2000));

    // A second press in the same window.
    assert_eq!(cooldowns.trigger(ADD_ONE), Err(CooldownNotReady));
    assert_eq!(score.current(), q(2000));

    cooldowns.tick_all(q(50));
    assert_eq!(cooldowns.trigger(ADD_ONE), Err(CooldownNotReady));
    cooldowns.tick_all(q(50));
    assert_eq!(cooldowns.trigger(ADD_ONE), Ok(()));
    score.set_current(score.current().add(one));
    assert_eq!(score.current(), q(3000));

    // The pool is full: the cooldown still fires, the pool stays at its capacity.
    cooldowns.tick_all(q(100));
    assert_eq!(cooldowns.trigger(ADD_ONE), Ok(()));
    assert_eq!(score.set_current(score.current().add(one)), q(3000));
    assert_eq!(score.current(), q(3000));
}
