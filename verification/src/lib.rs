//! Celebrity Dogs: a two-player card battle in the style of Top Trumps.
//!
//! Each player holds an ordered pile of dog cards. Every round one attribute
//! of the two front cards is compared; the winner of the round takes both
//! cards. The game ends when one pile is empty.

pub mod dog;
pub mod game;
mod random;
pub mod setup;
pub mod shell;
