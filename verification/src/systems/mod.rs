//! The rules of the game: statistics, events, rooms, trading and travel.

pub mod events;
pub mod game;
pub mod market;
pub mod multiplayer;
pub mod save;
pub mod trading;
pub mod travel;
