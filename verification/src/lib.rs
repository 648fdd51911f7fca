//! Small, fully specified building blocks for variant-driven control flow:
//! coins and their denominations, ordered match arms over coins, an increment
//! on optional integers, and a dice-roll dispatcher whose effects are recorded
//! so that they can be stated.

pub mod arms;
pub mod coin;
pub mod dice;
pub mod optional;
