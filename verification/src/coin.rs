//! Coins, the states that mint quarters, and what each coin is worth.

use vstd::prelude::*;

verus! {

/// A state that can appear on the back of a quarter.
#[derive(Clone, Copy, Debug, PartialEq, Eq, Structural)]
pub enum UsState {
    Alabama,
    Alaska,
    Arizona,
    Arkansas,
}

/// A coin. A quarter carries the state it was minted for.
#[derive(Clone, Copy, Debug, PartialEq, Eq, Structural)]
pub enum Coin {
    Penny,
    Nickel,
    Dime,
    Quarter(UsState),
}

impl UsState {
    /// The state's name as it is written out.
    pub open spec fn name(self) -> Seq<char> {
        match self {
            UsState::Alabama => "Alabama"@,
            UsState::Alaska => "Alaska"@,
            UsState::Arizona => "Arizona"@,
            UsState::Arkansas => "Arkansas"@,
        }
    }
}

impl Coin {
    /// The coin's name as it is written out; a quarter shows its state in
    /// round brackets.
    pub open spec fn name(self) -> Seq<char> {
        match self {
            Coin::Penny => "Penny"@,
            Coin::Nickel => "Nickel"@,
            Coin::Dime => "Dime"@,
            Coin::Quarter(state) => "Quarter("@ + state.name() + ")"@,
        }
    }

    /// What there is to say when a coin is valued: a penny is lucky, a
    /// quarter tells where it comes from, the others pass without a word.
    pub open spec fn remark(self) -> Option<Seq<char>> {
        match self {
            Coin::Penny => Some("Lucky penny!"@),
            Coin::Quarter(state) => Some(
                "This quarter was printed in the state of "@ + state.name(),
            ),
            _ => None,
        }
    }

    /// The denomination of a coin, in cents.
    pub open spec fn cents(self) -> int {
        match self {
            Coin::Penny => 1,
            Coin::Nickel => 5,
            Coin::Dime => 10,
            Coin::Quarter(_) => 25,
        }
    }
}

/// Returns the denomination of `coin` in cents.
pub fn value_in_cents(coin: &Coin) -> (cents: u8)
    ensures
        cents == coin.cents(),
{
    match coin {
        Coin::Penny => 1,
        Coin::Nickel => 5,
        Coin::Dime => 10,
        Coin::Quarter(_) => 25,
    }
}

/// The characters of an optional string, if there is one.
pub open spec fn text_of(line: Option<String>) -> Option<Seq<char>> {
    match line {
        None => None,
        Some(s) => Some(s@),
    }
}

/// Returns the name of `state`.
pub fn state_name(state: UsState) -> (name: &'static str)
    ensures
        name@ == state.name(),
{
    match state {
        UsState::Alabama => "Alabama",
        UsState::Alaska => "Alaska",
        UsState::Arizona => "Arizona",
        UsState::Arkansas => "Arkansas",
    }
}

/// Returns the name of `coin`, a quarter's with its state.
pub fn coin_name(coin: &Coin) -> (name: String)
    ensures
        name@ == coin.name(),
{
    match coin {
        Coin::Penny => String::from_str("Penny"),
        Coin::Nickel => String::from_str("Nickel"),
        Coin::Dime => String::from_str("Dime"),
        Coin::Quarter(state) => String::from_str("Quarter(").concat(state_name(*state)).concat(")"),
    }
}

/// Returns the line that goes with valuing `coin`, if the coin has one.
pub fn value_remark(coin: &Coin) -> (line: Option<String>)
    ensures
        text_of(line) == coin.remark(),
{
    match coin {
        Coin::Penny => Some(String::from_str("Lucky penny!")),
        Coin::Quarter(state) => Some(
            String::from_str("This quarter was printed in the state of ").concat(
                state_name(*state),
            ),
        ),
        _ => None,
    }
}

/// A quarter is worth 25 cents whatever state it was minted for, so two
/// quarters are always worth the same.
pub proof fn quarter_value_ignores_state(s: UsState, t: UsState)
    ensures
        Coin::Quarter(s).cents() == 25,
        Coin::Quarter(s).cents() == Coin::Quarter(t).cents(),
{
}

} // verus!
