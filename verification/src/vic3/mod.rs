//! Victoria 3 item types and validation helpers.

pub mod data;
pub mod validate;
