//! Hearts of Iron IV script tables.

pub mod iterators;
