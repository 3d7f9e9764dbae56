//! The configuration of an Oxy instance.

use vstd::prelude::*;

verus! {

/// The role an Oxy instance plays.
#[derive(Debug, Clone, Copy, PartialEq, Eq, Structural)]
pub enum Mode {
    /// Listens for clients.
    Server,
    /// Connects to a server.
    Client,
    /// One client's conversation inside a server.
    ServerConnection,
}

/// The configuration of an Oxy instance. Every setting is optional.
#[derive(Debug)]
pub struct Config {
    pub mode: Option<Mode>,
    pub outer_key: Option<Vec<u8>>,
    pub destination: Option<String>,
    pub local_private_key: Option<Vec<u8>>,
    pub local_public_key: Option<Vec<u8>>,
    pub remote_public_key: Option<Vec<u8>>,
    pub port_number: Option<u16>,
}

/// A configuration as plain values.
pub struct ConfigView {
    pub mode: Option<Mode>,
    pub outer_key: Option<Seq<u8>>,
    pub destination: Option<Seq<char>>,
    pub local_private_key: Option<Seq<u8>>,
    pub local_public_key: Option<Seq<u8>>,
    pub remote_public_key: Option<Seq<u8>>,
    pub port_number: Option<u16>,
}

/// The view of an optional byte vector.
pub open spec fn bytes_view(v: Option<Vec<u8>>) -> Option<Seq<u8>> {
    match v {
        Some(b) => Some(b@),
        None => None,
    }
}

/// The view of an optional string.
pub open spec fn string_view(v: Option<String>) -> Option<Seq<char>> {
    match v {
        Some(s) => Some(s@),
        None => None,
    }
}

impl View for Config {
    type V = ConfigView;

    open spec fn view(&self) -> ConfigView {
        ConfigView {
            mode: self.mode,
            outer_key: bytes_view(self.outer_key),
            destination: string_view(self.destination),
            local_private_key: bytes_view(self.local_private_key),
            local_public_key: bytes_view(self.local_public_key),
            remote_public_key: bytes_view(self.remote_public_key),
            port_number: self.port_number,
        }
    }
}

/// The configuration with no setting made.
pub open spec fn spec_default_config() -> ConfigView {
    ConfigView {
        mode: None,
        outer_key: None,
        destination: None,
        local_private_key: None,
        local_public_key: None,
        remote_public_key: None,
        port_number: None,
    }
}

impl Default for Config {
    fn default() -> (config: Self)
        ensures
            config@ == spec_default_config(),
    {
        Config {
            mode: None,
            outer_key: None,
            destination: None,
            local_private_key: None,
            local_public_key: None,
            remote_public_key: None,
            port_number: None,
        }
    }
}

/// The configuration of one client's conversation inside a server: the
/// server's configuration with the mode set to [`Mode::ServerConnection`].
pub fn server_connection_config(config: Config) -> (connection: Config)
    ensures
        connection@ == (ConfigView { mode: Some(Mode::ServerConnection), ..config@ }),
{
    Config { mode: Some(Mode::ServerConnection), ..config }
}

} // verus!
