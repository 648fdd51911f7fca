use match_flow::coin::{coin_name, state_name, value_in_cents, value_remark, Coin, UsState};

const STATES: [UsState; 4] = [
    UsState::Alabama,
    UsState::Alaska,
    UsState::Arizona,
    UsState::Arkansas,
];

#[test]
fn small_coins_follow_the_denomination_table() {
    assert_eq!(value_in_cents(&Coin::Penny), 1);
    assert_eq!(value_in_cents(&Coin::Nickel), 5);
    assert_eq!(value_in_cents(&Coin::Dime), 10);
}

#[test]
fn a_quarter_is_worth_25_from_every_state() {
    for state in STATES {
        assert_eq!(value_in_cents(&Coin::Quarter(state)), 25);
    }
}

#[test]
fn a_penny_is_lucky() {
    assert_eq!(value_remark(&Coin::Penny), Some(String::from("Lucky penny!")));
}

#[test]
fn a_quarter_tells_its_state() {
    assert_eq!(
        value_remark(&Coin::Quarter(UsState::Arizona)),
        Some(String::from("This quarter was printed in the state of Arizona"))
    );
    assert_eq!(
        value_remark(&Coin::Quarter(UsState::Alaska)),
        Some(String::from("This quarter was printed in the state of Alaska"))
    );
}

#[test]
fn nickel_and_dime_pass_without_a_word() {
    assert_eq!(value_remark(&Coin::Nickel), None);
    assert_eq!(value_remark(&Coin::Dime), None);
}

#[test]
fn state_names_are_spelled_out() {
    assert_eq!(state_name(UsState::Alabama), "Alabama");
    assert_eq!(state_name(UsState::Alaska), "Alaska");
    assert_eq!(state_name(UsState::Arizona), "Arizona");
    assert_eq!(state_name(UsState::Arkansas), "Arkansas");
}

#[test]
fn state_names_agree_with_debug() {
    for state in STATES {
        assert_eq!(state_name(state), format!("{:?}", state));
    }
}

#[test]
fn coin_names_are_spelled_out() {
    assert_eq!(coin_name(&Coin::Penny), "Penny");
    assert_eq!(coin_name(&Coin::Nickel), "Nickel");
    assert_eq!(coin_name(&Coin::Dime), "Dime");
    assert_eq!(coin_name(&Coin::Quarter(UsState::Arkansas)), "Quarter(Arkansas)");
}

#[test]
fn coin_names_agree_with_debug() {
    let mut coins = vec![Coin::Penny, Coin::Nickel, Coin::Dime];
    for state in STATES {
        coins.push(Coin::Quarter(state));
    }
    for coin in coins {
        assert_eq!(coin_name(&coin), format!("{:?}", coin));
    }
}
