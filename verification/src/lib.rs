//! Cooldowns and resource pools that gate when an ability may be used.
//!
//! Every magnitude is a fixed-point [`quantity::Quantity`]: a whole number of
//! thousandths. Pools hold a clamped balance that regenerates over time,
//! cooldowns recover charges over time, and the functions of [`ability`]
//! decide whether a pressed action may fire and commit its effects.


pub mod quantity;
pub mod pool;
pub mod cooldown;
pub mod cooldown_state;
pub mod ability;
pub mod life;
pub mod mana;
