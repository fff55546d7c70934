//! Next-train answers from a transit agency's real-time feed.
//!
//! The library resolves stop identifiers to station names and names back to
//! stop codes, formats arrival lines, assembles the bounded response from a
//! decoded feed, and decides each step of handling a request. It also picks
//! the vocabulary flashcard of the day. Everything that touches the network or
//! the clock is left to the program around it.

pub mod arrival;
pub mod assembler;
pub mod bart;
pub mod feed;
pub mod flashcard;
pub mod station_facts;
pub mod station_laws;
pub mod station_table;
pub mod stations;
pub mod text;
