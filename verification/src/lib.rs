//! Cross-version regression diffing for mCRL2 specifications and modal
//! formulas.
//!
//! The same input is run through two independent producers of abstract syntax
//! tree (AST) text — the current in-process binding and a previously released
//! executable — and the two renderings are compared character for character.
//! Divergence is reported with a word-level diff. A tree pretty-printer turns
//! the flat parenthesized AST text into an indented view for inspection.

pub mod compare;
pub mod diff;
pub mod locator;
pub mod mode;
pub mod outcome;
pub mod pretty;
pub mod producer;
