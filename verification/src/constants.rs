//! Names and version numbers of the application and its protocol, and the
//! enumerations shared by the client and the daemon.
use vstd::prelude::*;

verus! {

/// Name of the application.
pub const APP_NAME: &'static str = "NAGX";

/// Name of the structured protocol spoken between client and daemon.
pub const PROTOCOL_NAME: &'static str = "NXP";

/// Major version of the protocol.
pub const PROTOCOL_MAJOR: u32 = 1;

/// Minor version of the protocol.
pub const PROTOCOL_MINOR: u32 = 0;

/// State of a window of the client.
#[derive(Debug, Clone, Copy, PartialEq, Eq, Structural)]
pub enum WindowState {
    Normal,
    Minimized,
    Maximized,
    Fullscreen,
    Hidden,
    Closed,
}

/// Permission levels of operations: read, write, execute and admin.
#[derive(Debug, Clone, Copy, PartialEq, Eq, Structural)]
pub enum Permission {
    Read,
    Write,
    Execute,
    Admin,
}

/// The workspaces of the client.
#[derive(Debug, Clone, Copy, PartialEq, Eq, Structural)]
pub enum Workspace {
    Overview,
    Development,
    Monitoring,
    Operations,
}

} // verus!
