//! Configuration of a server connection.
use vstd::prelude::*;

verus! {

/// Port of an SSH server unless configured otherwise.
pub const DEFAULT_SSH_PORT: u16 = 22;

/// Where and as whom to connect.
#[derive(Debug, Clone, PartialEq, Eq)]
pub struct ServerConfig {
    pub host: String,
    pub port: u16,
    pub user: String,
}

impl ServerConfig {
    /// A configuration for `user` on `host`, on the SSH port 22.
    pub fn new(host: String, user: String) -> (config: Self)
        ensures
            config.host == host,
            config.port == DEFAULT_SSH_PORT,
            config.user == user,
    {
        ServerConfig { host, port: DEFAULT_SSH_PORT, user }
    }
}

} // verus!
