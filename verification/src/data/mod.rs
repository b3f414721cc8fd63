//! Game data shared by all games.

pub mod defines;
