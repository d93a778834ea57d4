//! An incremental parser for `TAG=VALUE` fields separated by the SOH control
//! character, as used by FIX-style session protocols.
//!
//! The parser is fed one character at a time. What it does with each character
//! is defined by a small mathematical automaton ([`model`]); the executable
//! accumulator ([`msg_parse::ParsingInfo`]) is proved to follow that automaton
//! step by step, and [`laws`] states what the automaton does to whole runs of
//! characters.

pub mod laws;
pub mod model;
pub mod msg_parse;
