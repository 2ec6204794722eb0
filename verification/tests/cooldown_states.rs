use leafwing_abilities::cooldown::{Cooldown, CooldownNotReady};
use leafwing_abilities::cooldown_state::{Abilitylike, CooldownState};
use leafwing_abilities::quantity::Quantity;

#[derive(Clone, Copy, Debug, PartialEq)]
enum Cookie {
    AddOne,
    Double,
    Unknown,
    Fifth,
    Sixth,
    Seventh,
}

impl Abilitylike for Cookie {
    fn index(&self) -> u64 {
        self.ordinal()
    }

    fn ordinal(&self) -> u64 {
        match self {
            Cookie::AddOne => 0,
            Cookie::Double => 1,
            Cookie::Unknown => 77,
            Cookie::Fifth => 5,
            Cookie::Sixth => 6,
            Cookie::Seventh => 7,
        }
    }
}

const ADD_ONE: &Cookie = &Cookie::AddOne;
const DOUBLE: &Cookie = &Cookie::Double;
const UNKNOWN: &Cookie = &Cookie::Unknown;

fn q(thousandths: i64) -> Quantity {
    Quantity::from_thousandths(thousandths)
}

fn cookie_cooldowns() -> CooldownState<Cookie> {
    let mut state = CooldownState::new();
    state.set(ADD_ONE, Cooldown::from_duration(q(100)));
    state.set(DOUBLE, Cooldown::from_seconds(5));
    state
}

#[test]
fn a_new_state_holds_no_cooldown() {
    let state: CooldownState<Cookie> = CooldownState::new();
    assert_eq!(state.get(ADD_ONE), None);
    assert_eq!(state.get(UNKNOWN), None);
}

#[test]
fn the_default_state_holds_no_cooldown() {
    let mut state: CooldownState<Cookie> = CooldownState::default();
    assert_eq!(state.get(ADD_ONE), None);
    assert!(state.ready(ADD_ONE));
    assert_eq!(state.trigger(DOUBLE), Ok(()));
    assert_eq!(state.get(DOUBLE), None);
}

#[test]
fn set_inserts_and_get_finds() {
    let state = cookie_cooldowns();
    assert_eq!(state.get(ADD_ONE), Some(&Cooldown::from_duration(q(100))));
    assert_eq!(state.get(DOUBLE), Some(&Cooldown::from_seconds(5)));
    assert_eq!(state.get(UNKNOWN), None);
}

#[test]
fn set_replaces_the_cooldown_of_a_known_action() {
    let mut state = cookie_cooldowns();
    state.set(ADD_ONE, Cooldown::new_with_charges(q(900), 3));
    assert_eq!(state.get(ADD_ONE), Some(&Cooldown::new_with_charges(q(900), 3)));
    assert_eq!(state.get(DOUBLE), Some(&Cooldown::from_seconds(5)));
}

#[test]
fn an_action_without_a_cooldown_is_always_ready() {
    let mut state = cookie_cooldowns();
    assert!(state.ready(UNKNOWN));
    assert_eq!(state.trigger(UNKNOWN), Ok(()));
    assert_eq!(state.trigger(UNKNOWN), Ok(()));
    assert!(state.ready(UNKNOWN));
    assert_eq!(state.get(UNKNOWN), None);
    assert_eq!(state.get(ADD_ONE), Some(&Cooldown::from_duration(q(100))));
}

#[test]
fn trigger_spends_the_charge_of_one_action_only() {
    let mut state = cookie_cooldowns();
    assert!(state.ready(ADD_ONE));
    assert_eq!(state.trigger(ADD_ONE), Ok(()));
    assert!(!state.ready(ADD_ONE));
    assert!(state.ready(DOUBLE));
    assert_eq!(state.trigger(ADD_ONE), Err(CooldownNotReady));
    assert_eq!(state.get(ADD_ONE).unwrap().charges(), 0);
    assert_eq!(state.get(ADD_ONE).unwrap().remaining(), q(100));
    assert_eq!(state.get(DOUBLE), Some(&Cooldown::from_seconds(5)));
}

#[test]
fn tick_all_ticks_every_cooldown() {
    let mut state = cookie_cooldowns();
    assert_eq!(state.trigger(ADD_ONE), Ok(()));
    assert_eq!(state.trigger(DOUBLE), Ok(()));
    state.tick_all(q(100));
    assert!(state.ready(ADD_ONE));
    assert!(!state.ready(DOUBLE));
    assert_eq!(state.get(DOUBLE).unwrap().remaining(), q(4900));
    state.tick_all(q(4900));
    assert!(state.ready(DOUBLE));
    assert_eq!(state.get(DOUBLE), Some(&Cooldown::from_seconds(5)));
}

#[test]
fn tick_all_on_an_empty_state_does_nothing() {
    let mut state: CooldownState<Cookie> = CooldownState::new();
    state.tick_all(q(1000));
    assert_eq!(state.get(ADD_ONE), None);
}

#[test]
fn set_all_gives_each_action_the_cooldown() {
    let mut state = cookie_cooldowns();
    state.set_all(
        &vec![Cookie::Double, Cookie::Fifth, Cookie::Sixth, Cookie::Fifth],
        Cooldown::new_with_charges(q(300), 2),
    );
    assert_eq!(state.get(ADD_ONE), Some(&Cooldown::from_duration(q(100))));
    assert_eq!(state.get(DOUBLE), Some(&Cooldown::new_with_charges(q(300), 2)));
    assert_eq!(state.get(&Cookie::Fifth), Some(&Cooldown::new_with_charges(q(300), 2)));
    assert_eq!(state.get(&Cookie::Sixth), Some(&Cooldown::new_with_charges(q(300), 2)));
    assert_eq!(state.get(&Cookie::Seventh), None);
}

#[test]
fn set_all_without_actions_changes_nothing() {
    let mut state = cookie_cooldowns();
    state.set_all(&vec![], Cooldown::from_seconds(9));
    assert_eq!(state.get(ADD_ONE), Some(&Cooldown::from_duration(q(100))));
    assert_eq!(state.get(DOUBLE), Some(&Cooldown::from_seconds(5)));
}

#[test]
fn a_clone_holds_the_same_cooldowns_and_lives_apart() {
    let mut state = cookie_cooldowns();
    let copy = state.clone();
    assert_eq!(state.trigger(ADD_ONE), Ok(()));
    assert_eq!(copy.get(ADD_ONE), Some(&Cooldown::from_duration(q(100))));
    assert_eq!(copy.get(DOUBLE), Some(&Cooldown::from_seconds(5)));
    assert_eq!(state.get(ADD_ONE).unwrap().charges(), 0);
}

#[test]
fn a_number_stands_for_itself() {
    let mut state: CooldownState<u64> = CooldownState::new();
    assert_eq!(7u64.index(), 7);
    state.set(&7, Cooldown::from_seconds(1));
    state.set(&u64::MAX, Cooldown::from_seconds(2));
    assert_eq!(state.get(&7), Some(&Cooldown::from_seconds(1)));
    assert_eq!(state.get(&u64::MAX), Some(&Cooldown::from_seconds(2)));
    assert_eq!(state.get(&0), None);
    assert_eq!(state.trigger(&7), Ok(()));
    assert_eq!(state.trigger(&7), Err(CooldownNotReady));
    assert!(state.ready(&u64::MAX));
}
