//! Spell-checking support for source code: extracts the natural-language
//! regions of a file (comments, string literals, plain lines) as
//! position-tracked text fragments, drives a stateful checking-engine
//! session over them, and composes the engine's per-fragment misspelling
//! hits back into file coordinates.

pub mod extract;
pub mod fragment;
pub mod lines;
pub mod report;
pub mod session;
pub mod syntax;
