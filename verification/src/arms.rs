//! Ordered match arms over coins. Arms are tried from the top and the first
//! one that matches wins, so an arm can be shadowed by those above it, and a
//! list of arms may or may not cover every coin. Both questions are decided
//! here, and the answers are proved against their definitions.

use crate::coin::{coin_name, Coin, UsState};
use vstd::prelude::*;

verus! {

/// The pattern of one match arm.
#[derive(Clone, Copy, Debug, PartialEq, Eq, Structural)]
pub enum Arm {
    Penny,
    Nickel,
    Dime,
    /// Any quarter, whatever its state.
    Quarter,
    /// A catch-all that binds the coin to a name and uses it.
    Named,
    /// A catch-all that does not look at the coin.
    Wildcard,
}

impl Arm {
    /// Whether the arm takes every coin.
    pub open spec fn catches_all(self) -> bool {
        self == Arm::Named || self == Arm::Wildcard
    }

    /// Whether the arm's pattern matches `coin`.
    pub open spec fn matches(self, coin: Coin) -> bool {
        match self {
            Arm::Penny => coin == Coin::Penny,
            Arm::Nickel => coin == Coin::Nickel,
            Arm::Dime => coin == Coin::Dime,
            Arm::Quarter => coin is Quarter,
            Arm::Named => true,
            Arm::Wildcard => true,
        }
    }
}

/// Arm `i` matches `coin` and no arm above it does.
pub open spec fn first_match(arms: Seq<Arm>, coin: Coin, i: int) -> bool {
    &&& 0 <= i < arms.len()
    &&& arms[i].matches(coin)
    &&& forall|j: int| 0 <= j < i ==> !#[trigger] arms[j].matches(coin)
}

/// No arm matches `coin`.
pub open spec fn no_match(arms: Seq<Arm>, coin: Coin) -> bool {
    forall|j: int| 0 <= j < arms.len() ==> !#[trigger] arms[j].matches(coin)
}

/// Some coin is handled by arm `i`: the arm is not shadowed.
pub open spec fn reachable(arms: Seq<Arm>, i: int) -> bool {
    exists|coin: Coin| first_match(arms, coin, i)
}

/// Every coin is matched by some arm.
pub open spec fn exhaustive(arms: Seq<Arm>) -> bool {
    forall|coin: Coin| !no_match(arms, coin)
}

/// The coin that stands for all coins of the same denomination: arms do not
/// look at a quarter's state.
pub open spec fn plain(coin: Coin) -> Coin {
    match coin {
        Coin::Quarter(_) => Coin::Quarter(UsState::Alabama),
        other => other,
    }
}

/// The line announced for a coin by the arms `Penny`, `Nickel`, a named
/// catch-all and a wildcard, in that order.
pub open spec fn announcement(coin: Coin) -> Seq<char> {
    match coin {
        Coin::Penny => "Penny!"@,
        Coin::Nickel => "Nickel!"@,
        other => "Not a penny or nickel! It's a "@ + other.name(),
    }
}

/// Decides whether `arm` matches `coin`.
pub fn arm_matches(arm: Arm, coin: &Coin) -> (hit: bool)
    ensures
        hit == arm.matches(*coin),
{
    match arm {
        Arm::Penny => matches!(coin, Coin::Penny),
        Arm::Nickel => matches!(coin, Coin::Nickel),
        Arm::Dime => matches!(coin, Coin::Dime),
        Arm::Quarter => matches!(coin, Coin::Quarter(_)),
        Arm::Named => true,
        Arm::Wildcard => true,
    }
}

/// Returns the index of the arm that handles `coin`: the first one that
/// matches, or `None` when none does.
pub fn select_arm(arms: &Vec<Arm>, coin: &Coin) -> (chosen: Option<usize>)
    ensures
        match chosen {
            Some(i) => first_match(arms@, *coin, i as int),
            None => no_match(arms@, *coin),
        },
{
    let mut i: usize = 0;
    while i < arms.len()
        invariant
            i <= arms.len(),
            forall|j: int| 0 <= j < i ==> !#[trigger] arms@[j].matches(*coin),
        decreases arms.len() - i,
    {
        if arm_matches(arms[i], coin) {
            return Some(i);
        }
        i += 1;
    }
    None
}

/// Two arms cannot both be the first to match a coin.
pub proof fn first_match_is_unique(arms: Seq<Arm>, coin: Coin, i: int, j: int)
    requires
        first_match(arms, coin, i),
        first_match(arms, coin, j),
    ensures
        i == j,
{
    if i < j {
        assert(!arms[i].matches(coin));
    } else if j < i {
        assert(!arms[j].matches(coin));
    }
}

/// An arm treats a coin as it treats the plain coin of its denomination.
pub proof fn arms_ignore_state(arms: Seq<Arm>, coin: Coin)
    ensures
        forall|j: int|
            0 <= j < arms.len() ==> #[trigger] arms[j].matches(coin) == arms[j].matches(
                plain(coin),
            ),
        forall|i: int| first_match(arms, coin, i) == first_match(arms, plain(coin), i),
        no_match(arms, coin) == no_match(arms, plain(coin)),
{
    assert forall|i: int| first_match(arms, coin, i) == first_match(arms, plain(coin), i) by {
        if first_match(arms, coin, i) {
            assert forall|j: int| 0 <= j < i implies !#[trigger] arms[j].matches(plain(coin)) by {
                assert(!arms[j].matches(coin));
            }
        }
        if first_match(arms, plain(coin), i) {
            assert forall|j: int| 0 <= j < i implies !#[trigger] arms[j].matches(coin) by {
                assert(!arms[j].matches(plain(coin)));
            }
        }
    }
    if no_match(arms, coin) {
        assert forall|j: int| 0 <= j < arms.len() implies !#[trigger] arms[j].matches(
            plain(coin),
        ) by {
            assert(!arms[j].matches(coin));
        }
    }
    if no_match(arms, plain(coin)) {
        assert forall|j: int| 0 <= j < arms.len() implies !#[trigger] arms[j].matches(coin) by {
            assert(!arms[j].matches(plain(coin)));
        }
    }
}

/// Whether `chosen` is the index `index`.
fn picks(chosen: Option<usize>, index: usize) -> (same: bool)
    ensures
        same == (chosen == Some(index)),
{
    match chosen {
        Some(i) => i == index,
        None => false,
    }
}

/// Decides whether the arm at `index` can ever be the one that handles a
/// coin. An index past the end is not reachable.
pub fn arm_is_reachable(arms: &Vec<Arm>, index: usize) -> (live: bool)
    ensures
        live == reachable(arms@, index as int),
{
    let penny = select_arm(arms, &Coin::Penny);
    let nickel = select_arm(arms, &Coin::Nickel);
    let dime = select_arm(arms, &Coin::Dime);
    let quarter = select_arm(arms, &Coin::Quarter(UsState::Alabama));
    let live = picks(penny, index) || picks(nickel, index) || picks(dime, index) || picks(
        quarter,
        index,
    );
    proof {
        let at = index as int;
        if live {
            if penny == Some(index) {
                assert(first_match(arms@, Coin::Penny, at));
            } else if nickel == Some(index) {
                assert(first_match(arms@, Coin::Nickel, at));
            } else if dime == Some(index) {
                assert(first_match(arms@, Coin::Dime, at));
            } else {
                assert(first_match(arms@, Coin::Quarter(UsState::Alabama), at));
            }
        } else {
            assert forall|coin: Coin| !first_match(arms@, coin, at) by {
                if first_match(arms@, coin, at) {
                    arms_ignore_state(arms@, coin);
                    let rep = plain(coin);
                    let found = match rep {
                        Coin::Penny => penny,
                        Coin::Nickel => nickel,
                        Coin::Dime => dime,
                        Coin::Quarter(_) => quarter,
                    };
                    match found {
                        Some(i) => {
                            first_match_is_unique(arms@, rep, i as int, at);
                        },
                        None => {
                            assert(!arms@[at].matches(rep));
                        },
                    }
                }
            }
        }
    }
    live
}

/// Decides whether the arms cover every coin.
pub fn is_exhaustive(arms: &Vec<Arm>) -> (total: bool)
    ensures
        total == exhaustive(arms@),
{
    let penny = select_arm(arms, &Coin::Penny);
    let nickel = select_arm(arms, &Coin::Nickel);
    let dime = select_arm(arms, &Coin::Dime);
    let quarter = select_arm(arms, &Coin::Quarter(UsState::Alabama));
    let total = penny.is_some() && nickel.is_some() && dime.is_some() && quarter.is_some();
    proof {
        if total {
            assert forall|coin: Coin| !no_match(arms@, coin) by {
                arms_ignore_state(arms@, coin);
                let rep = plain(coin);
                let found = match rep {
                    Coin::Penny => penny,
                    Coin::Nickel => nickel,
                    Coin::Dime => dime,
                    Coin::Quarter(_) => quarter,
                };
                let i = found.unwrap() as int;
                assert(arms@[i].matches(rep));
            }
        } else {
            let missed = if penny.is_none() {
                Coin::Penny
            } else if nickel.is_none() {
                Coin::Nickel
            } else if dime.is_none() {
                Coin::Dime
            } else {
                Coin::Quarter(UsState::Alabama)
            };
            assert(no_match(arms@, missed));
        }
    }
    total
}

/// Lists the arms that no coin can reach, by index, in ascending order.
pub fn unreachable_arms(arms: &Vec<Arm>) -> (dead: Vec<usize>)
    ensures
        forall|k: int|
            0 <= k < dead@.len() ==> #[trigger] dead@[k] < arms@.len() && !reachable(
                arms@,
                dead@[k] as int,
            ),
        forall|i: int| 0 <= i < arms@.len() && !reachable(arms@, i) ==> dead@.contains(i as usize),
        forall|a: int, b: int| 0 <= a < b < dead@.len() ==> dead@[a] < dead@[b],
{
    let mut dead: Vec<usize> = Vec::new();
    let mut i: usize = 0;
    while i < arms.len()
        invariant
            i <= arms.len(),
            forall|k: int|
                0 <= k < dead@.len() ==> #[trigger] dead@[k] < i && !reachable(
                    arms@,
                    dead@[k] as int,
                ),
            forall|j: int| 0 <= j < i && !reachable(arms@, j) ==> dead@.contains(j as usize),
            forall|a: int, b: int| 0 <= a < b < dead@.len() ==> dead@[a] < dead@[b],
        decreases arms.len() - i,
    {
        if !arm_is_reachable(arms, i) {
            let ghost before = dead@;
            dead.push(i);
            proof {
                assert(dead@[before.len() as int] == i);
                assert forall|j: int| 0 <= j < i + 1 && !reachable(arms@, j) implies dead@.contains(
                    j as usize,
                ) by {
                    if j < i {
                        let k = choose|k: int| 0 <= k < before.len() && before[k] == j as usize;
                        assert(dead@[k] == j as usize);
                    }
                }
            }
        }
        i += 1;
    }
    dead
}

/// Below a catch-all nothing is reachable: the arms above win first.
pub proof fn nothing_follows_a_catch_all(arms: Seq<Arm>, i: int, j: int)
    requires
        0 <= i < j < arms.len(),
        arms[i].catches_all(),
    ensures
        !reachable(arms, j),
{
    assert forall|coin: Coin| !first_match(arms, coin, j) by {
        assert(arms[i].matches(coin));
    }
}

/// Arms that hold a catch-all cover every coin.
pub proof fn catch_all_is_exhaustive(arms: Seq<Arm>, i: int)
    requires
        0 <= i < arms.len(),
        arms[i].catches_all(),
    ensures
        exhaustive(arms),
{
    assert forall|coin: Coin| !no_match(arms, coin) by {
        assert(arms[i].matches(coin));
    }
}

/// Exhaustive arms hand every coin to an arm; by `first_match_is_unique`
/// to that one only.
pub proof fn exhaustive_arms_always_select(arms: Seq<Arm>, coin: Coin)
    requires
        exhaustive(arms),
    ensures
        exists|i: int| first_match(arms, coin, i),
{
    assert(!no_match(arms, coin));
    let j = choose|j: int| 0 <= j < arms.len() && #[trigger] arms[j].matches(coin);
    least_match_exists(arms, coin, j);
}

/// If arm `j` matches, some arm at or above it is the first to match.
proof fn least_match_exists(arms: Seq<Arm>, coin: Coin, j: int)
    requires
        0 <= j < arms.len(),
        arms[j].matches(coin),
    ensures
        exists|i: int| 0 <= i <= j && first_match(arms, coin, i),
    decreases j,
{
    if exists|k: int| 0 <= k < j && #[trigger] arms[k].matches(coin) {
        let k = choose|k: int| 0 <= k < j && #[trigger] arms[k].matches(coin);
        least_match_exists(arms, coin, k);
    } else {
        assert(first_match(arms, coin, j));
    }
}

/// The arms `Penny`, `Nickel`, a named catch-all, and a wildcard below it
/// that nothing reaches.
pub fn sample_arms() -> (arms: Vec<Arm>)
    ensures
        arms@ == seq![Arm::Penny, Arm::Nickel, Arm::Named, Arm::Wildcard],
{
    let mut arms: Vec<Arm> = Vec::new();
    arms.push(Arm::Penny);
    arms.push(Arm::Nickel);
    arms.push(Arm::Named);
    arms.push(Arm::Wildcard);
    assert(arms@ =~= seq![Arm::Penny, Arm::Nickel, Arm::Named, Arm::Wildcard]);
    arms
}

/// Announces `coin` by running it through `sample_arms`: a penny and a
/// nickel have their own line, every other coin is named by the catch-all.
pub fn announce(coin: &Coin) -> (line: String)
    ensures
        line@ == announcement(*coin),
{
    let arms = sample_arms();
    let chosen = select_arm(&arms, coin);
    proof {
        assert(arms@[2].matches(*coin));
        assert(arms@[0].matches(*coin) == (*coin == Coin::Penny));
        assert(arms@[1].matches(*coin) == (*coin == Coin::Nickel));
    }
    if picks(chosen, 0) {
        String::from_str("Penny!")
    } else if picks(chosen, 1) {
        String::from_str("Nickel!")
    } else if picks(chosen, 2) {
        String::from_str("Not a penny or nickel! It's a ").concat(coin_name(coin).as_str())
    } else {
        String::from_str("No idea what this is.")
    }
}

} // verus!
