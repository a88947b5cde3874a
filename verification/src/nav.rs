//! Group-navigation state machine: one state per emoji group plus an
//! "all groups" state, addressed by the ASCII digit keys `'0'..='9'` with
//! `'0'` standing for "all groups". Stepping moves to the numerically
//! adjacent state and wraps around at both ends.

use vstd::prelude::*;

verus! {

/// The nine top-level emoji groups.
#[derive(Clone, Copy, Debug, PartialEq, Eq, Structural)]
pub enum Group {
    SmileysAndEmotion,
    PeopleAndBody,
    AnimalsAndNature,
    FoodAndDrink,
    TravelAndPlaces,
    Activities,
    Objects,
    Symbols,
    Flags,
}

/// The position of a group in the fixed group enumeration.
pub open spec fn group_index_spec(g: Group) -> int {
    match g {
        Group::SmileysAndEmotion => 0,
        Group::PeopleAndBody => 1,
        Group::AnimalsAndNature => 2,
        Group::FoodAndDrink => 3,
        Group::TravelAndPlaces => 4,
        Group::Activities => 5,
        Group::Objects => 6,
        Group::Symbols => 7,
        Group::Flags => 8,
    }
}

/// The group at a position of the fixed group enumeration.
pub open spec fn group_of_index(i: int) -> Group {
    if i == 0 {
        Group::SmileysAndEmotion
    } else if i == 1 {
        Group::PeopleAndBody
    } else if i == 2 {
        Group::AnimalsAndNature
    } else if i == 3 {
        Group::FoodAndDrink
    } else if i == 4 {
        Group::TravelAndPlaces
    } else if i == 5 {
        Group::Activities
    } else if i == 6 {
        Group::Objects
    } else if i == 7 {
        Group::Symbols
    } else {
        Group::Flags
    }
}

pub fn group_index(g: Group) -> (r: usize)
    ensures
        r == group_index_spec(g),
        r < 9,
        group_of_index(r as int) == g,
{
    match g {
        Group::SmileysAndEmotion => 0,
        Group::PeopleAndBody => 1,
        Group::AnimalsAndNature => 2,
        Group::FoodAndDrink => 3,
        Group::TravelAndPlaces => 4,
        Group::Activities => 5,
        Group::Objects => 6,
        Group::Symbols => 7,
        Group::Flags => 8,
    }
}

pub fn index_to_group(i: usize) -> (r: Group)
    requires
        i < 9,
    ensures
        r == group_of_index(i as int),
{
    if i == 0 {
        Group::SmileysAndEmotion
    } else if i == 1 {
        Group::PeopleAndBody
    } else if i == 2 {
        Group::AnimalsAndNature
    } else if i == 3 {
        Group::FoodAndDrink
    } else if i == 4 {
        Group::TravelAndPlaces
    } else if i == 5 {
        Group::Activities
    } else if i == 6 {
        Group::Objects
    } else if i == 7 {
        Group::Symbols
    } else {
        Group::Flags
    }
}

/// The group selected by an ASCII digit key; `'0'` and every non-digit key
/// select "all groups".
pub open spec fn group_from_key_spec(key: u8) -> Option<Group> {
    if key == 49 {
        Some(Group::SmileysAndEmotion)
    } else if key == 50 {
        Some(Group::PeopleAndBody)
    } else if key == 51 {
        Some(Group::AnimalsAndNature)
    } else if key == 52 {
        Some(Group::FoodAndDrink)
    } else if key == 53 {
        Some(Group::TravelAndPlaces)
    } else if key == 54 {
        Some(Group::Activities)
    } else if key == 55 {
        Some(Group::Objects)
    } else if key == 56 {
        Some(Group::Symbols)
    } else if key == 57 {
        Some(Group::Flags)
    } else {
        None
    }
}

/// The ASCII digit key that addresses a navigation state.
pub open spec fn key_from_group_spec(group: Option<Group>) -> u8 {
    match group {
        Some(Group::SmileysAndEmotion) => 49,
        Some(Group::PeopleAndBody) => 50,
        Some(Group::AnimalsAndNature) => 51,
        Some(Group::FoodAndDrink) => 52,
        Some(Group::TravelAndPlaces) => 53,
        Some(Group::Activities) => 54,
        Some(Group::Objects) => 55,
        Some(Group::Symbols) => 56,
        Some(Group::Flags) => 57,
        None => 48,
    }
}

/// The key of the state one step forward, wrapping from `'9'` back to `'0'`.
pub open spec fn next_key_spec(key: u8) -> u8 {
    if key >= 57 {
        48
    } else {
        (key + 1) as u8
    }
}

/// The key of the state one step backward, wrapping from `'0'` up to `'9'`.
pub open spec fn prev_key_spec(key: u8) -> u8 {
    if key <= 48 {
        57
    } else {
        (key - 1) as u8
    }
}

pub fn group_from_key(key: u8) -> (r: Option<Group>)
    ensures
        r == group_from_key_spec(key),
{
    if key == 49 {
        Some(Group::SmileysAndEmotion)
    } else if key == 50 {
        Some(Group::PeopleAndBody)
    } else if key == 51 {
        Some(Group::AnimalsAndNature)
    } else if key == 52 {
        Some(Group::FoodAndDrink)
    } else if key == 53 {
        Some(Group::TravelAndPlaces)
    } else if key == 54 {
        Some(Group::Activities)
    } else if key == 55 {
        Some(Group::Objects)
    } else if key == 56 {
        Some(Group::Symbols)
    } else if key == 57 {
        Some(Group::Flags)
    } else {
        None
    }
}

pub fn key_from_group(group: Option<Group>) -> (r: u8)
    ensures
        r == key_from_group_spec(group),
{
    match group {
        Some(Group::SmileysAndEmotion) => 49,
        Some(Group::PeopleAndBody) => 50,
        Some(Group::AnimalsAndNature) => 51,
        Some(Group::FoodAndDrink) => 52,
        Some(Group::TravelAndPlaces) => 53,
        Some(Group::Activities) => 54,
        Some(Group::Objects) => 55,
        Some(Group::Symbols) => 56,
        Some(Group::Flags) => 57,
        None => 48,
    }
}

/// The two key encodings invert each other, so the ten navigation states are
/// in one-to-one correspondence with the keys `'0'..='9'`.
pub proof fn lemma_key_group_roundtrip(group: Option<Group>, key: u8)
    ensures
        group_from_key_spec(key_from_group_spec(group)) == group,
        48 <= key <= 57 ==> key_from_group_spec(group_from_key_spec(key)) == key,
{
}

/// One step forward through the navigation cycle: `'0' -> '1' -> ... -> '9' -> '0'`.
pub fn step_forward(group: Option<Group>) -> (r: Option<Group>)
    ensures
        r == group_from_key_spec(next_key_spec(key_from_group_spec(group))),
        key_from_group_spec(r) == next_key_spec(key_from_group_spec(group)),
{
    let mut key = key_from_group(group);
    key = if key >= 57 {
        48
    } else {
        key + 1
    };
    let r = group_from_key(key);
    proof {
        lemma_key_group_roundtrip(group, key);
    }
    r
}

/// One step backward through the navigation cycle: `'0' -> '9' -> ... -> '1' -> '0'`.
pub fn step_backward(group: Option<Group>) -> (r: Option<Group>)
    ensures
        r == group_from_key_spec(prev_key_spec(key_from_group_spec(group))),
        key_from_group_spec(r) == prev_key_spec(key_from_group_spec(group)),
{
    let mut key = key_from_group(group);
    key = if key <= 48 {
        57
    } else {
        key - 1
    };
    let r = group_from_key(key);
    proof {
        lemma_key_group_roundtrip(group, key);
    }
    r
}

} // verus!
