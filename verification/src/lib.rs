//! A state-capitals quiz session: a directory of state/capital pairs, a
//! controller that asks entries one at a time, scores typed guesses
//! case-insensitively, retires an entry once it is answered correctly, and
//! offers a restart when nothing is left to ask.

pub mod directory;
pub mod session;
pub mod text;
