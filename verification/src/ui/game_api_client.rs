//! What a client needs to reach a server: the address to call, and the
//! ways in which a call can fail.

use vstd::prelude::*;
use crate::text::{join2, has_prefix, starts_with, trim_trailing, without_trailing};

verus! {

/// Why a call to the server failed.
#[derive(Debug, Clone)]
pub enum ApiError {
    NetworkError(String),
    ParseError(String),
    ServerError(String),
}

impl ApiError {
    /// The error in words.
    pub open spec fn text(self) -> Seq<char> {
        match self {
            ApiError::NetworkError(msg) => "Network error: "@ + msg@,
            ApiError::ParseError(msg) => "Parse error: "@ + msg@,
            ApiError::ServerError(msg) => "Server error: "@ + msg@,
        }
    }

    /// The error in words.
    pub fn message(&self) -> (r: String)
        ensures
            r@ == self.text(),
    {
        match self {
            ApiError::NetworkError(msg) => join2("Network error: ", msg.as_str()),
            ApiError::ParseError(msg) => join2("Parse error: ", msg.as_str()),
            ApiError::ServerError(msg) => join2("Server error: ", msg.as_str()),
        }
    }
}

/// What a client knows of its server: the address under which it is
/// called.
#[derive(Debug, Clone)]
pub struct GameApiClient {
    pub base_url: String,
}

impl GameApiClient {
    /// A client for the server at an address.
    pub fn new(server_address: String) -> (r: Self)
        ensures
            r.base_url@ == base_url_of(server_address@),
    {
        GameApiClient { base_url: base_url(server_address.as_str()) }
    }

    /// The address of a path on the server.
    pub fn url(&self, path: &str) -> (r: String)
        ensures
            r@ == self.base_url@ + path@,
    {
        join2(self.base_url.as_str(), path)
    }
}

/// The address under which a server is called: an address that names its
/// scheme stands, without the slashes at its end; any other is taken as
/// host and port, to be reached over HTTP.
pub open spec fn base_url_of(server_address: Seq<char>) -> Seq<char> {
    if has_prefix(server_address, "http://"@) || has_prefix(server_address, "https://"@) {
        without_trailing(server_address, '/')
    } else {
        "http://"@ + server_address
    }
}

/// The address under which a server is called.
pub fn base_url(server_address: &str) -> (r: String)
    ensures
        r@ == base_url_of(server_address@),
{
    if starts_with(server_address, "http://") || starts_with(server_address, "https://") {
        trim_trailing(server_address, '/')
    } else {
        join2("http://", server_address)
    }
}

} // verus!
