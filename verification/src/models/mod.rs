//! The value types of the game: amounts by name, cargo, markets, players.

pub mod airport;
pub mod amounts;
pub mod cargo;
pub mod market;
pub mod message_board;
pub mod player;
pub mod stats;
