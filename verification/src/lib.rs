//! A two-party card draw in which each party commits to a card derived from a
//! verifiable random function, and the other party checks the revealed card
//! against the commitment.

pub mod bytes;
pub mod transcript;
pub mod vrf;
pub mod card;
pub mod draw;
pub mod seed;
pub mod verify;
pub mod game;
