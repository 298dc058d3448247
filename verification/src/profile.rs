//! Who plays: the player's profile, names and avatars.

use crate::card::Card;
use crate::consts::AVATARS_AMOUNT;
use crate::player::Player;
use crate::rng::{random_i32, random_in_range, random_usize};
use crate::text::{abs, append_decimal, decimal};
use vstd::prelude::*;
use vstd::string::StringExecFns;

verus! {

/// The path of the picture of the avatar with the given number.
pub open spec fn avatar_path(id: int) -> Seq<char> {
    "avatars/"@ + decimal(id) + ".png"@
}

/// The avatar after the given one; after the last comes the first.
pub open spec fn spec_next_avatar(id: int) -> int {
    if id + 1 > AVATARS_AMOUNT {
        1
    } else {
        id + 1
    }
}

/// The avatar before the given one; before the first comes the last.
pub open spec fn spec_previous_avatar(id: int) -> int {
    if id - 1 < 1 {
        AVATARS_AMOUNT as int
    } else {
        id - 1
    }
}

/// The avatar after the given one; after the last comes the first.
pub fn next_avatar(id: i32) -> (next: i32)
    ensures
        next == spec_next_avatar(id as int),
{
    if id >= AVATARS_AMOUNT {
        1
    } else {
        id + 1
    }
}

/// The avatar before the given one; before the first comes the last.
pub fn previous_avatar(id: i32) -> (previous: i32)
    ensures
        previous == spec_previous_avatar(id as int),
{
    if id <= 1 {
        AVATARS_AMOUNT
    } else {
        id - 1
    }
}

/// Going to the next avatar and back, or back and to the next, returns to
/// where one was, from any avatar there is; and neither leaves the avatars
/// there are.
pub proof fn lemma_avatars_go_round(id: int)
    requires
        1 <= id <= AVATARS_AMOUNT,
    ensures
        1 <= spec_next_avatar(id) <= AVATARS_AMOUNT,
        1 <= spec_previous_avatar(id) <= AVATARS_AMOUNT,
        spec_previous_avatar(spec_next_avatar(id)) == id,
        spec_next_avatar(spec_previous_avatar(id)) == id,
{
}

/// The avatar that the opponent gets for a number drawn at random: one of
/// all but the last.
pub open spec fn spec_opponent_avatar(raw: int) -> int {
    1 + abs(raw) % (AVATARS_AMOUNT - 1)
}

/// The avatar that the opponent gets for a number drawn at random.
pub fn opponent_avatar(raw: i32) -> (id: i32)
    ensures
        id == spec_opponent_avatar(raw as int),
        1 <= id < AVATARS_AMOUNT,
{
    let magnitude: i64 = if raw < 0 {
        -(raw as i64)
    } else {
        raw as i64
    };
    (1 + magnitude % (AVATARS_AMOUNT as i64 - 1)) as i32
}

/// The avatar that the opponent gets for a number drawn at random.
pub open spec fn avatar_for(raw: i32) -> int {
    spec_opponent_avatar(raw as int)
}

/// An avatar for the opponent, chosen at random among all but the last: the
/// avatar that `opponent_avatar` gives for a number drawn at random.
pub fn random_opponent_avatar() -> (id: i32)
    ensures
        1 <= id < AVATARS_AMOUNT,
        exists|raw: i32| id == #[trigger] avatar_for(raw),
{
    let raw: i32 = random_i32();
    let id: i32 = opponent_avatar(raw);
    assert(id == avatar_for(raw));
    id
}

/// A player's profile.
#[derive(Debug, Clone, PartialEq)]
pub struct Profile {
    pub avatar_id: i32,
    pub name: String,
}

impl Default for Profile {
    fn default() -> (profile: Profile)
        ensures
            profile.avatar_id == 1,
            profile.name@ == "Wojmir"@,
    {
        Profile { avatar_id: 1, name: String::from_str("Wojmir") }
    }
}

impl Profile {
    /// The path of the picture of the profile's avatar.
    pub fn get_avatar_path(&self) -> (path: String)
        ensures
            path@ == avatar_path(self.avatar_id as int),
    {
        Profile::format_avatar_path(self.avatar_id)
    }

    /// The path of the picture of the avatar with the given number.
    pub fn format_avatar_path(id: i32) -> (path: String)
        ensures
            path@ == avatar_path(id as int),
    {
        let mut path = String::from_str("avatars/");
        append_decimal(&mut path, id as i64);
        path.append(".png");
        path
    }
}

/// Something that may hold a profile.
pub trait ProfileProvider {
    /// The profile, if one is held.
    fn get_profile(&self) -> Option<Profile>;

    /// Whether a profile is held.
    fn has_profile(&self) -> bool {
        self.get_profile().is_some()
    }
}

/// The avatar to begin with: that of the profile, or, where there is no
/// profile, one chosen at random among all but the last.
pub fn get_avatar_id(profile: Option<&Profile>) -> (id: i32)
    ensures
        match profile {
            Some(profile) => id == profile.avatar_id,
            None => 1 <= id < AVATARS_AMOUNT,
        },
{
    match profile {
        Some(profile) => profile.avatar_id,
        None => random_in_range(1, AVATARS_AMOUNT),
    }
}

/// The name to begin with: that of the profile, or, where there is no
/// profile, that of the default profile.
pub fn get_user_name(profile: Option<&Profile>) -> (name: String)
    ensures
        match profile {
            Some(profile) => name@ == profile.name@,
            None => name@ == "Wojmir"@,
        },
{
    match profile {
        Some(profile) => profile.name.clone(),
        None => String::from_str("Wojmir"),
    }
}

/// Names to choose an opponent's name from.
#[derive(Debug, Clone, PartialEq)]
pub struct NamesAsset(pub Vec<String>);

impl NamesAsset {
    /// The name that a drawn number stands for.
    pub fn name_at(&self, draw: usize) -> (name: String)
        requires
            self.0@.len() > 0,
        ensures
            name@ == self.0@[draw as int % self.0@.len() as int]@,
    {
        self.0[draw % self.0.len()].clone()
    }

    /// One of the names, chosen at random.
    pub fn get_random(&self) -> (name: String)
        requires
            self.0@.len() > 0,
        ensures
            exists|i: int| 0 <= i < self.0@.len() && name@ == (#[trigger] self.0@[i])@,
    {
        let draw: usize = random_usize();
        let name = self.name_at(draw);
        assert(name@ == self.0@[draw as int % self.0@.len() as int]@);
        name
    }
}

/// What a match is told of one of its players before it begins.
#[derive(Debug, Clone, PartialEq)]
pub struct PlayerInformation {
    pub name: String,
    pub start_stats: Player,
    pub deck: Vec<Card>,
    pub avatar_id: i32,
}

impl Default for PlayerInformation {
    fn default() -> (information: PlayerInformation)
        ensures
            information.name@ == Seq::<char>::empty(),
            information.start_stats@ == crate::player::PlayerModel::base(),
            information.deck@.len() == 0,
            information.avatar_id == 0,
    {
        PlayerInformation {
            name: String::new(),
            start_stats: Player::new(),
            deck: Vec::new(),
            avatar_id: 0,
        }
    }
}

/// Name and avatar of a player in a match.
#[derive(Debug, Clone, PartialEq)]
pub struct PlayerDetailsInfo {
    pub name: String,
    pub avatar_id: i32,
}

impl PlayerDetailsInfo {
    /// Name and avatar of the player that the information is about.
    pub fn from(value: &PlayerInformation) -> (details: PlayerDetailsInfo)
        ensures
            details.name@ == value.name@,
            details.avatar_id == value.avatar_id,
    {
        PlayerDetailsInfo { name: value.name.clone(), avatar_id: value.avatar_id }
    }

    /// The path of the picture of the player's avatar.
    pub fn avatar_path(&self) -> (path: String)
        ensures
            path@ == avatar_path(self.avatar_id as int),
    {
        Profile::format_avatar_path(self.avatar_id)
    }
}

} // verus!
