//! Rules of Slavic Castles, a two-player card battler.
//!
//! Each player keeps three supplies (tools, magic, soldiers), a tower and
//! walls. A card costs some amount of one supply and carries a list of
//! effects, each aimed either at the player who plays it or at the opponent.
//! This crate holds the rules: what a card does to either side, how a
//! player's state changes and stays within its limits, how hands are dealt
//! and whose turn it is.

pub mod consts;
pub mod board;
pub mod card;
pub mod catalog;
pub mod display;
pub mod hand;
pub mod player;
pub mod player_resources;
pub mod profile;
pub mod resource;
mod rng;
pub mod stats;
pub mod text;
pub mod turn;
