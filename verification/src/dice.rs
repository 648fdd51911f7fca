//! A dice-roll dispatcher. Two rolls are special; every other roll falls
//! through to a default that the caller chooses. Each action that fires is
//! appended to a log, so that what happened can be stated and checked.

use vstd::prelude::*;

verus! {

/// The roll that puts the fancy hat on.
pub const HAT_ON_ROLL: u8 = 3;

/// The roll that takes the fancy hat off.
pub const HAT_OFF_ROLL: u8 = 7;

/// An action of the game, as recorded when it fires.
#[derive(Clone, Copy, Debug, PartialEq, Eq, Structural)]
pub enum Action {
    AddFancyHat,
    RemoveFancyHat,
    MovePlayer(u8),
    Reroll,
}

/// What a roll that is not special leads to.
#[derive(Clone, Copy, Debug, PartialEq, Eq, Structural)]
pub enum Fallback {
    /// Move the player by the roll.
    Move,
    /// Roll again; the roll itself is not used.
    Reroll,
    /// Do nothing at all.
    Ignore,
}

/// The actions that a roll fires under a fallback, in order.
pub open spec fn fired(roll: u8, fallback: Fallback) -> Seq<Action> {
    if roll == HAT_ON_ROLL {
        seq![Action::AddFancyHat]
    } else if roll == HAT_OFF_ROLL {
        seq![Action::RemoveFancyHat]
    } else {
        match fallback {
            Fallback::Move => seq![Action::MovePlayer(roll)],
            Fallback::Reroll => seq![Action::Reroll],
            Fallback::Ignore => Seq::empty(),
        }
    }
}

/// Puts the fancy hat on: records `Action::AddFancyHat`.
pub fn add_fancy_hat(log: &mut Vec<Action>)
    ensures
        final(log)@ == old(log)@.push(Action::AddFancyHat),
{
    log.push(Action::AddFancyHat);
}

/// Takes the fancy hat off: records `Action::RemoveFancyHat`.
pub fn remove_fancy_hat(log: &mut Vec<Action>)
    ensures
        final(log)@ == old(log)@.push(Action::RemoveFancyHat),
{
    log.push(Action::RemoveFancyHat);
}

/// Asks for another roll: records `Action::Reroll`.
pub fn reroll(log: &mut Vec<Action>)
    ensures
        final(log)@ == old(log)@.push(Action::Reroll),
{
    log.push(Action::Reroll);
}

/// Moves the player by `distance`: records `Action::MovePlayer(distance)`.
pub fn move_player(distance: u8, log: &mut Vec<Action>)
    ensures
        final(log)@ == old(log)@.push(Action::MovePlayer(distance)),
{
    log.push(Action::MovePlayer(distance));
}

/// Acts on a roll: the two special rolls fire their own action, any other
/// roll fires what `fallback` says. The log grows by exactly what fired and
/// is otherwise untouched.
pub fn dispatch_on_value(value: u8, fallback: Fallback, log: &mut Vec<Action>)
    ensures
        final(log)@ == old(log)@ + fired(value, fallback),
{
    if value == HAT_ON_ROLL {
        add_fancy_hat(log);
    } else if value == HAT_OFF_ROLL {
        remove_fancy_hat(log);
    } else {
        match fallback {
            Fallback::Move => move_player(value, log),
            Fallback::Reroll => reroll(log),
            Fallback::Ignore => {},
        }
    }
    assert(final(log)@ =~= old(log)@ + fired(value, fallback));
}

/// A roll fires one action, except that a roll which is not special fires
/// none when the fallback ignores it. In particular no roll fires twice.
pub proof fn roll_fires_at_most_once(roll: u8, fallback: Fallback)
    ensures
        fired(roll, fallback).len() == if roll != HAT_ON_ROLL && roll != HAT_OFF_ROLL
            && fallback == Fallback::Ignore {
            0nat
        } else {
            1nat
        },
{
}

/// Which action a special roll fires does not depend on the fallback.
pub proof fn special_roll_ignores_fallback(roll: u8, a: Fallback, b: Fallback)
    requires
        roll == HAT_ON_ROLL || roll == HAT_OFF_ROLL,
    ensures
        fired(roll, a) == fired(roll, b),
{
}

} // verus!
