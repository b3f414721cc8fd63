//! Hearts of Iron IV tables.

pub mod tables;
