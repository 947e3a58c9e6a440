//! Terminal state: its size and the events a PTY-facing terminal handles.
use vstd::prelude::*;

verus! {

/// Size of a terminal in character cells.
#[derive(Debug, Clone, PartialEq, Eq, Structural)]
pub struct TerminalSize {
    pub cols: u16,
    pub rows: u16,
}

/// Columns of a terminal of the default size.
pub const DEFAULT_TERMINAL_COLS: u16 = 120;

/// Rows of a terminal of the default size.
pub const DEFAULT_TERMINAL_ROWS: u16 = 32;

impl Default for TerminalSize {
    /// A terminal of 120 columns and 32 rows.
    fn default() -> (size: Self)
        ensures
            size.cols == DEFAULT_TERMINAL_COLS,
            size.rows == DEFAULT_TERMINAL_ROWS,
    {
        TerminalSize { cols: DEFAULT_TERMINAL_COLS, rows: DEFAULT_TERMINAL_ROWS }
    }
}

/// Signals that can be delivered to the foreground process of a terminal.
#[derive(Debug, Clone, Copy, PartialEq, Eq, Structural)]
pub enum Signal {
    Interrupt,
    Suspend,
    Quit,
    Terminate,
}

/// Something that happens on a terminal.
#[derive(Debug, Clone, PartialEq, Eq)]
pub enum TerminalEvent {
    Input(Vec<u8>),
    Output(Vec<u8>),
    Resize(TerminalSize),
    Signal(Signal),
}

} // verus!
