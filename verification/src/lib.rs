//! Reading what the Luau compiler hands back.
//!
//! The compiler answers every request with one buffer of bytes. Its first
//! byte tells bytecode from a diagnostic. This crate holds the rules for
//! reading such a buffer, the settings a request carries, and a plain-text
//! rendering of bytecode, each with a proved contract.

pub mod hexdump;
pub mod options;
pub mod output;
