//! What the game offers to the outside: requests, responses, and the
//! services that answer them.

pub mod errors;
pub mod models;
pub mod multiplayer_service;
pub mod room_actions;
pub mod room_view;
pub mod service;
