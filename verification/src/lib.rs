//! Bitmask construction and rendering.
//!
//! The crate builds three families of bitmasks over `usize` values --
//! a run of low ones (`fill`), a single bit (`set`), and a filled mask
//! with one bit cleared (`invert`) -- and renders them as hexadecimal
//! or binary text, optionally followed by a descriptive comment.

pub mod cli;
pub mod ops;
pub mod text;
