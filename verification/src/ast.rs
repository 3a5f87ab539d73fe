//! The syntax tree of a declaration file, as far as the transformation reads or writes it.
//!
//! Every type here has a ghost twin, named with `View` at the end, in which strings are
//! sequences of characters and vectors are sequences. `model` gives the twin of a value, and
//! `@` is short for it. The contracts of this crate speak of twins only.
//!
//! Syntax that the transformation hands on without looking inside (most type expressions,
//! destructuring patterns, interface bodies) does not appear here: the caller keeps it in a
//! table, and the tree holds a [`span::NodeId`] in its place.

pub mod decl;
pub mod expr;
pub mod module;
pub mod pat;
pub mod span;
pub mod token;
pub mod ts_type;
