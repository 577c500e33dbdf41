//! A small library of verified routines: text measurement, shape areas in
//! fixed-point arithmetic, tagged-union dispatch, sequence transformations,
//! a serialized counter, an associative registry, and argument echoing.

pub mod arguments;
pub mod counter;
pub mod heap;
pub mod messages;
pub mod registry;
pub mod sequences;
pub mod shapes;
pub mod text;
