//! Interactive password generator library: character-class selection,
//! population building, random sampling, and the session state machine.

pub mod generate;
pub mod letters;
pub mod options;
pub mod parse;
pub mod population;
pub mod session;
