//! A verified parser for Python dependency specifiers: a name, extras,
//! versions or a URL, and a marker.
//!
//! The grammar is stated once, as specification functions over sequences of
//! characters, and every executable parser is proved to compute exactly what
//! that grammar denotes, including the position and the expectations of the
//! syntax error that is reported when the input does not match.
//!
//! - [`parse`] and [`parser`] are the entry points, and [`url::parse`] and
//!   [`url::parser`] those for a URI reference alone.
//! - [`model`] holds what a specifier says, and [`failure`] what an error
//!   says.
//! - [`grammar`] is the grammar, over the steps of [`step`]; [`laws`] and
//!   [`bounds`] hold what is proved of it.
//! - [`dependency`], [`marker`], [`version`], [`name`] and [`url`] hold the
//!   parsers, one function for each rule of the grammar, over the
//!   elementary steps of [`scan`] on a [`source`].

pub mod bounds;
pub mod class;
pub mod dependency;
pub mod failure;
pub mod grammar;
pub mod laws;
pub mod marker;
pub mod model;
pub mod name;
pub mod scan;
pub mod source;
pub mod step;
pub mod url;
pub mod version;

pub use dependency::{parse, parser};
pub use grammar::dependency::MAX_NESTING;
pub use failure::{Expected, Failure, SyntaxError};
pub use model::{Comparator, Dependency, Marker, Operator, Spec, Variable, VersionSpec};
