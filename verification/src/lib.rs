//! An aviation trading game: players buy and sell cargo, manage fuel and fly
//! between airports, alone or together in shared rooms.

pub mod api;
pub mod chance;
pub mod clock;
pub mod config;
pub mod data;
pub mod ident;
pub mod laws;
pub mod models;
pub mod search;
pub mod systems;
pub mod text;
pub mod ui;
