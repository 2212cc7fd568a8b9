//! The grammar, as specification functions from an input, a position and
//! the furthest failure so far to the outcome of a
//! [`Step`](crate::step::Step).
//!
//! Alternatives are ordered: the first that succeeds is taken, and nothing
//! that follows can make the parse come back to try another. Repetitions
//! take as much as they can.

pub mod dependency;
pub mod marker;
pub mod name;
pub mod url;
pub mod version;
