//! What the screens of the game keep between frames, and what a client
//! needs to reach a server.

pub mod egui_app;
pub mod game_api_client;
pub mod scenes;
pub mod terminal;
