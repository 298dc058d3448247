//! The numbers the rules are built on.

use vstd::prelude::*;

verus! {

/// Cards a player holds in hand.
pub const CARDS_IN_DECK: i32 = 5;

/// Stock of each supply at the start of a match.
pub const BASE_RESOURCE_AMOUNT: i32 = 3;

/// Production of each supply at the start of a match.
pub const BASE_RESOURCE_PRODUCTION: i32 = 1;

/// Tower height at the start of a match.
pub const BASE_TOWER_HP: i32 = 15;

/// Wall strength at the start of a match.
pub const BASE_WALLS_HP: i32 = 5;

/// A tower this high wins the match; no tower grows past it.
pub const MAX_TOWER_HP: i32 = 50;

/// No wall grows past this.
pub const MAX_WALLS_HP: i32 = 30;

/// No supply is produced faster than this per turn.
pub const MAX_PRODUCTION: i32 = 10;

/// Avatars a profile can choose from, numbered from 1.
pub const AVATARS_AMOUNT: i32 = 13;

} // verus!
