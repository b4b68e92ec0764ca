//! The scene in which a player names the server to play on.

use vstd::prelude::*;

verus! {

/// How the connection to the server stands.
#[derive(Debug, Clone, Default)]
pub enum ConnectionState {
    #[default]
    Disconnected,
    Connecting,
    Connected,
    /// The connection failed, for a reason.
    Error(String),
}

/// What the connection scene keeps.
#[derive(Debug, Clone)]
pub struct ServerConnectionScene {
    pub server_address: String,
    pub connection_state: ConnectionState,
    pub error_message: Option<String>,
}

impl Default for ServerConnectionScene {
    fn default() -> (r: Self)
        ensures
            r.server_address@ == "http://127.0.0.1:3000"@,
            r.connection_state is Disconnected,
            r.error_message is None,
    {
        ServerConnectionScene {
            server_address: "http://127.0.0.1:3000".to_string(),
            connection_state: ConnectionState::Disconnected,
            error_message: None,
        }
    }
}

impl ServerConnectionScene {
    /// Begins to connect: the state is `Connecting` and no error is
    /// shown.
    pub fn begin_connecting(&mut self)
        ensures
            final(self).connection_state is Connecting,
            final(self).error_message is None,
            final(self).server_address == old(self).server_address,
    {
        self.connection_state = ConnectionState::Connecting;
        self.error_message = None;
    }
}

} // verus!
