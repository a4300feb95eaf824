//! A streaming byte-substitution copier.
//!
//! The library rewrites byte streams by replacing every occurrence of one
//! fixed byte value with another — here `;` with `:` — while passing every
//! other byte through unchanged. The rewrite never changes a stream's
//! length, and feeding a stream through in chunks of any size gives exactly
//! the same output as rewriting it whole.

pub mod copier;
pub mod subst;
