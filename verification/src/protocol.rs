//! The NXP wire model.
use vstd::prelude::*;

verus! {

/// Version string of the protocol.
pub const PROTOCOL_VERSION: &'static str = "1.0";

/// The kinds of NXP messages.
#[derive(Debug, Clone, PartialEq, Eq, Structural)]
pub enum MessageKind {
    Hello,
    Welcome,
    ResizePty,
    TerminalInput,
    TerminalOutput,
    Ping,
    Pong,
}

} // verus!
