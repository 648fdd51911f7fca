use match_flow::dice::{
    add_fancy_hat, dispatch_on_value, move_player, remove_fancy_hat, reroll, Action, Fallback,
    HAT_OFF_ROLL, HAT_ON_ROLL,
};

const FALLBACKS: [Fallback; 3] = [Fallback::Move, Fallback::Reroll, Fallback::Ignore];

fn fired(roll: u8, fallback: Fallback) -> Vec<Action> {
    let mut log = Vec::new();
    dispatch_on_value(roll, fallback, &mut log);
    log
}

#[test]
fn special_rolls_are_three_and_seven() {
    assert_eq!(HAT_ON_ROLL, 3);
    assert_eq!(HAT_OFF_ROLL, 7);
}

#[test]
fn three_adds_the_hat_exactly_once() {
    for fallback in FALLBACKS {
        assert_eq!(fired(3, fallback), vec![Action::AddFancyHat]);
    }
}

#[test]
fn seven_removes_the_hat_exactly_once() {
    for fallback in FALLBACKS {
        assert_eq!(fired(7, fallback), vec![Action::RemoveFancyHat]);
    }
}

#[test]
fn nine_moves_the_player_by_nine() {
    assert_eq!(fired(9, Fallback::Move), vec![Action::MovePlayer(9)]);
}

#[test]
fn nine_rerolls_when_the_roll_is_not_used() {
    assert_eq!(fired(9, Fallback::Reroll), vec![Action::Reroll]);
}

#[test]
fn nine_does_nothing_when_ignored() {
    assert_eq!(fired(9, Fallback::Ignore), Vec::new());
}

#[test]
fn every_roll_fires_at_most_once() {
    for roll in 0..=u8::MAX {
        for fallback in FALLBACKS {
            let special = roll == 3 || roll == 7;
            let expected = if !special && fallback == Fallback::Ignore { 0 } else { 1 };
            assert_eq!(fired(roll, fallback).len(), expected);
        }
    }
}

#[test]
fn other_rolls_move_by_their_own_value() {
    for roll in 0..=u8::MAX {
        if roll != 3 && roll != 7 {
            assert_eq!(fired(roll, Fallback::Move), vec![Action::MovePlayer(roll)]);
        }
    }
}

#[test]
fn dispatch_appends_to_what_was_logged() {
    let mut log = vec![Action::Reroll];
    dispatch_on_value(3, Fallback::Move, &mut log);
    dispatch_on_value(12, Fallback::Ignore, &mut log);
    dispatch_on_value(7, Fallback::Reroll, &mut log);
    dispatch_on_value(0, Fallback::Move, &mut log);
    assert_eq!(
        log,
        vec![
            Action::Reroll,
            Action::AddFancyHat,
            Action::RemoveFancyHat,
            Action::MovePlayer(0),
        ]
    );
}

#[test]
fn each_action_records_itself() {
    let mut log = Vec::new();
    add_fancy_hat(&mut log);
    remove_fancy_hat(&mut log);
    reroll(&mut log);
    move_player(4, &mut log);
    assert_eq!(
        log,
        vec![
            Action::AddFancyHat,
            Action::RemoveFancyHat,
            Action::Reroll,
            Action::MovePlayer(4),
        ]
    );
}
