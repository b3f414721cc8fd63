//! Verified core of a validator for Paradox game scripts: scope sets, the error
//! report store, the path table, defines, LSP tables and item tables.

pub mod text;
pub mod game;
pub mod scopes;
pub mod block;
pub mod db;
pub mod fileset;
pub mod pathtable;
pub mod token;
pub mod validator;
pub mod item;
pub mod order;
pub mod report;
pub mod vic3;
pub mod hoi4;
pub mod data;
pub mod lsp_tables;
