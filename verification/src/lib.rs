//! Control logic for a four-outlet USB power strip.
//!
//! The library holds the pure core of the tool: the outlet addressing
//! scheme and wire codec, the resolution of user-supplied socket tokens
//! against a name table, and the dispatch of commands into a fixed plan
//! of USB control transfers. The surrounding program performs the actual
//! transfers and file reads and hands this library plain values.

pub mod codec;
pub mod command;
pub mod resolver;
