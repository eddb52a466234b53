//! Disjoint mutable views over one sequence, and a map built from key/value pairs.

pub mod pairs;
pub mod split;
