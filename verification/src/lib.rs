//! Decision logic of a DELTARUNE autosplitter: which splits fire, when the timer
//! starts, which titles the party holds, and how game memory is located, all
//! over plain values that the host side reads from the game process.

pub mod text;
pub mod num;
pub mod titles;
pub mod settings;
pub mod splits;
pub mod watch;
pub mod rooms;
pub mod versions;
pub mod memory;
pub mod trackers;
pub mod basic;
pub mod rules;
pub mod session;
pub mod split_laws;
