//! Decisions of the connect form of the client: whether a request can be
//! sent, and how the server is labelled.
use vstd::prelude::*;
use vstd::string::*;
use crate::keys::{key_bytes, terminal_key_bytes};
use crate::emulator::TerminalEmulator;

verus! {

/// Whether `c` has the Unicode `White_Space` property (the property that
/// `char::is_whitespace` and `str::trim` go by): U+0009 to U+000D, U+0020,
/// U+0085, U+00A0, U+1680, U+2000 to U+200A, U+2028, U+2029, U+202F, U+205F and
/// U+3000.
pub open spec fn unicode_white_space(c: char) -> bool {
    ||| ('\u{0009}' <= c && c <= '\u{000D}')
    ||| c == '\u{0020}'
    ||| c == '\u{0085}'
    ||| c == '\u{00A0}'
    ||| c == '\u{1680}'
    ||| ('\u{2000}' <= c && c <= '\u{200A}')
    ||| c == '\u{2028}'
    ||| c == '\u{2029}'
    ||| c == '\u{202F}'
    ||| c == '\u{205F}'
    ||| c == '\u{3000}'
}

/// Whether `c` is white space.
pub fn is_white_space(c: char) -> (white: bool)
    ensures
        white == unicode_white_space(c),
{
    ('\u{0009}' <= c && c <= '\u{000D}') || c == '\u{0020}' || c == '\u{0085}'
        || c == '\u{00A0}' || c == '\u{1680}' || ('\u{2000}' <= c && c <= '\u{200A}')
        || c == '\u{2028}' || c == '\u{2029}' || c == '\u{202F}' || c == '\u{205F}'
        || c == '\u{3000}'
}

/// Text that is empty once leading and trailing white space is trimmed: every
/// character of it is white space.
pub open spec fn is_blank(text: Seq<char>) -> bool {
    forall|i: int| 0 <= i < text.len() ==> unicode_white_space(#[trigger] text[i])
}

/// Whether `text` trims to nothing.
pub fn trims_to_empty(text: &str) -> (blank: bool)
    ensures
        blank == is_blank(text@),
{
    let len = text.unicode_len();
    let mut i: usize = 0;
    while i < len
        invariant
            len == text@.len(),
            i <= len,
            forall|j: int| 0 <= j < i ==> unicode_white_space(#[trigger] text@[j]),
        decreases len - i,
    {
        if !is_white_space(text.get_char(i)) {
            return false;
        }
        i = i + 1;
    }
    true
}

/// A connect request can be sent only when neither the host nor the user
/// name trims to nothing.
pub fn connection_request_valid(host: &str, username: &str) -> (valid: bool)
    ensures
        valid == (!is_blank(host@) && !is_blank(username@)),
{
    !(trims_to_empty(host) || trims_to_empty(username))
}

/// The label of a server as the client shows it: `user@host:22`.
pub open spec fn server_label_text(host: Seq<char>, username: Seq<char>) -> Seq<char> {
    username + "@"@ + host + ":22"@
}

/// The label of the server the client connects to, `username@host:22`.
pub fn server_label(host: &str, username: &str) -> (label: String)
    ensures
        label@ == server_label_text(host@, username@),
{
    let mut label = String::from_str(username);
    label.append("@");
    label.append(host);
    label.append(":22");
    label
}

/// Rows of the terminal the client opens for a session.
pub const CLIENT_TERMINAL_ROWS: u16 = 32;

/// Columns of the terminal the client opens for a session.
pub const CLIENT_TERMINAL_COLS: u16 = 120;

/// Rows of history the client's terminal keeps.
pub const CLIENT_TERMINAL_SCROLLBACK: usize = 2000;

/// What the terminal shows once the PTY is open, before any output.
pub const TERMINAL_GREETING: &'static str = "NAGX terminal initializing...\n";

/// The state of the connection as the client's status line shows it.
#[derive(Debug, Clone, PartialEq, Eq)]
pub enum ClientStatus {
    /// The connect form was sent with a blank host or user name.
    InvalidConnection,
    /// A connection is being opened.
    Connecting,
    /// The PTY is open.
    Connected,
    /// The connection failed; the error's text.
    Failed(String),
    /// The async runtime could not be started; the error's text.
    RuntimeFailed(String),
    /// The PTY closed.
    Disconnected,
}

/// Text of the status line for `status`.
pub open spec fn status_line(status: ClientStatus) -> Seq<char> {
    match status {
        ClientStatus::InvalidConnection => "INVALID CONNECTION"@,
        ClientStatus::Connecting => "CONNECTING..."@,
        ClientStatus::Connected => "CONNECTED / VT100 PTY"@,
        ClientStatus::Failed(err) => "ERROR: "@ + err@,
        ClientStatus::RuntimeFailed(err) => "RUNTIME ERROR: "@ + err@,
        ClientStatus::Disconnected => "PTY DISCONNECTED"@,
    }
}

/// The text of the status line for `status`.
pub fn status_text(status: &ClientStatus) -> (text: String)
    ensures
        text@ == status_line(*status),
{
    match status {
        ClientStatus::InvalidConnection => String::from_str("INVALID CONNECTION"),
        ClientStatus::Connecting => String::from_str("CONNECTING..."),
        ClientStatus::Connected => String::from_str("CONNECTED / VT100 PTY"),
        ClientStatus::Failed(err) => {
            let mut text = String::from_str("ERROR: ");
            text.append(err.as_str());
            text
        },
        ClientStatus::RuntimeFailed(err) => {
            let mut text = String::from_str("RUNTIME ERROR: ");
            text.append(err.as_str());
            text
        },
        ClientStatus::Disconnected => String::from_str("PTY DISCONNECTED"),
    }
}

/// The status after the connect form was sent: refused when the host or the
/// user name trims to nothing, otherwise connecting.
pub fn connect_request_status(host: &str, username: &str) -> (status: ClientStatus)
    ensures
        status == (if !is_blank(host@) && !is_blank(username@) {
            ClientStatus::Connecting
        } else {
            ClientStatus::InvalidConnection
        }),
{
    if connection_request_valid(host, username) {
        ClientStatus::Connecting
    } else {
        ClientStatus::InvalidConnection
    }
}

/// What the client sets up once the PTY is open: a fresh terminal of 32 rows
/// and 120 columns keeping 2000 rows of history, the status `Connected`, and
/// the greeting as the text the terminal view shows until output comes.
pub fn pty_opened() -> (opened: (TerminalEmulator, ClientStatus, String))
    ensures
        opened.0 == TerminalEmulator::fresh(
            CLIENT_TERMINAL_ROWS,
            CLIENT_TERMINAL_COLS,
            CLIENT_TERMINAL_SCROLLBACK,
        ),
        opened.1 == ClientStatus::Connected,
        opened.2@ == TERMINAL_GREETING@,
{
    let terminal = TerminalEmulator::new(
        CLIENT_TERMINAL_ROWS,
        CLIENT_TERMINAL_COLS,
        CLIENT_TERMINAL_SCROLLBACK,
    );
    (terminal, ClientStatus::Connected, String::from_str(TERMINAL_GREETING))
}

/// The bytes to send to the PTY for a key press, or `None` where the key
/// press gives none (nothing is sent then).
pub fn key_input(text: &str, control: bool, alt: bool) -> (input: Option<Vec<u8>>)
    ensures
        key_bytes(text@, control, alt).len() == 0 ==> input is None,
        key_bytes(text@, control, alt).len() > 0 ==> (input matches Some(bytes) && bytes@ == key_bytes(
            text@,
            control,
            alt,
        )),
{
    let bytes = terminal_key_bytes(text, control, alt);
    if bytes.len() == 0 {
        None
    } else {
        Some(bytes)
    }
}

/// The label holds the whole user name and the whole host: it is the user
/// name, then `@`, then the host, then `:22`, and nothing else.
pub proof fn lemma_server_label_parts(host: Seq<char>, username: Seq<char>)
    ensures
        server_label_text(host, username).len() == username.len() + host.len() + 4,
        server_label_text(host, username).subrange(0, username.len() as int) == username,
        server_label_text(host, username)[username.len() as int] == '@',
        server_label_text(host, username).subrange(
            username.len() + 1int,
            username.len() + 1int + host.len(),
        ) == host,
        server_label_text(host, username).subrange(
            username.len() + 1int + host.len(),
            username.len() + 4int + host.len(),
        ) == seq![':', '2', '2'],
{
    reveal_strlit("@");
    reveal_strlit(":22");
    let u = username.len() as int;
    let h = host.len() as int;
    let label = server_label_text(host, username);
    assert(label.subrange(0, u) =~= username);
    assert(label.subrange(u + 1, u + 1 + h) =~= host);
    assert(label.subrange(u + 1 + h, u + 4 + h) =~= seq![':', '2', '2']);
}

} // verus!
