//! Decisions of the SSH password login: which server keys are trusted, how
//! long a connection may stay idle, and what each step of the login leads to.
use vstd::prelude::*;
use vstd::string::*;

verus! {

/// Seconds of inactivity after which the SSH client closes the connection.
pub const INACTIVITY_TIMEOUT_SECS: u64 = 30;

/// Message that reports a server that turned the password down.
pub const AUTH_REJECTED_MESSAGE: &'static str = "SSH authentication rejected by server";

/// Prefix of the message that reports a failed connection.
pub const CONNECT_FAILED_PREFIX: &'static str = "SSH connection failed: ";

/// Prefix of the message that reports a failed authentication exchange.
pub const AUTH_FAILED_PREFIX: &'static str = "SSH authentication failed: ";

/// The client-side handler of an SSH connection.
#[derive(Debug, Clone, Copy, PartialEq, Eq, Structural)]
pub struct NagxHandler;

impl NagxHandler {
    /// Whether the server's host key is trusted. Host keys are not stored or
    /// verified yet, so every key is accepted.
    pub fn check_server_key(&self) -> (trusted: bool)
        ensures
            trusted,
    {
        true
    }
}

/// What a password login is asked to do: whom to log in as, where.
#[derive(Debug, Clone, PartialEq, Eq)]
pub struct LoginRequest {
    pub host: String,
    pub port: u16,
    pub username: String,
    pub password: String,
}

/// Where a password login stands.
#[derive(Debug, Clone, Copy, PartialEq, Eq, Structural)]
pub enum LoginPhase {
    /// Nothing has been done yet.
    Starting,
    /// The TCP connection and key exchange are under way.
    Connecting,
    /// The password has been sent and the server's answer is awaited.
    Authenticating,
    /// The login has succeeded or failed.
    Finished,
}

/// What the caller or the SSH connection reported.
#[derive(Debug, Clone, PartialEq, Eq)]
pub enum LoginEvent {
    /// The caller starts the login.
    Start,
    /// The connection is established.
    Connected,
    /// The connection could not be established; the error's text.
    ConnectFailed(String),
    /// The authentication exchange failed; the error's text.
    AuthFailed(String),
    /// The server answered the password: accepted or not.
    AuthAnswered(bool),
}

/// What to do next.
#[derive(Debug, Clone, PartialEq, Eq)]
pub enum LoginAction {
    /// Open an SSH connection to `host` on `port`, with a client
    /// configuration that is the default one except that it closes the
    /// connection after `inactivity_timeout_secs` seconds of inactivity.
    Connect { host: String, port: u16, inactivity_timeout_secs: u64 },
    /// Authenticate with this user name and password.
    SendPassword { username: String, password: String },
    /// Hand the authenticated connection to the caller.
    Accept,
    /// Give up with this message.
    Reject(String),
}

/// Text of the message that reports a failed connection.
pub open spec fn connect_failed_text(err: Seq<char>) -> Seq<char> {
    CONNECT_FAILED_PREFIX@ + err
}

/// Text of the message that reports a failed authentication exchange.
pub open spec fn auth_failed_text(err: Seq<char>) -> Seq<char> {
    AUTH_FAILED_PREFIX@ + err
}

/// The outcome of one login step: `next` is what the login for `request` does
/// on `event` in `phase`.
pub open spec fn login_step_result(
    phase: LoginPhase,
    request: LoginRequest,
    event: LoginEvent,
    next: Option<(LoginPhase, LoginAction)>,
) -> bool {
    match (phase, event) {
        (LoginPhase::Starting, LoginEvent::Start) => next == Some(
            (
                LoginPhase::Connecting,
                LoginAction::Connect {
                    host: request.host,
                    port: request.port,
                    inactivity_timeout_secs: INACTIVITY_TIMEOUT_SECS,
                },
            ),
        ),
        (LoginPhase::Connecting, LoginEvent::Connected) => next == Some(
            (
                LoginPhase::Authenticating,
                LoginAction::SendPassword { username: request.username, password: request.password },
            ),
        ),
        (LoginPhase::Connecting, LoginEvent::ConnectFailed(err)) => next matches Some(
            (LoginPhase::Finished, LoginAction::Reject(message)),
        ) && message@ == connect_failed_text(err@),
        (LoginPhase::Authenticating, LoginEvent::AuthFailed(err)) => next matches Some(
            (LoginPhase::Finished, LoginAction::Reject(message)),
        ) && message@ == auth_failed_text(err@),
        (LoginPhase::Authenticating, LoginEvent::AuthAnswered(true)) => next == Some(
            (LoginPhase::Finished, LoginAction::Accept),
        ),
        (LoginPhase::Authenticating, LoginEvent::AuthAnswered(false)) => next matches Some(
            (LoginPhase::Finished, LoginAction::Reject(message)),
        ) && message@ == AUTH_REJECTED_MESSAGE@,
        _ => next is None,
    }
}

fn prefixed_message(prefix: &str, err: &String) -> (message: String)
    ensures
        message@ == prefix@ + err@,
{
    let mut message = String::from_str(prefix);
    message.append(err.as_str());
    message
}

/// One step of a password login for `request`: from the phase and the
/// reported event to the next phase and the action to take. `None` for an
/// event that cannot come in that phase.
pub fn login_step(phase: LoginPhase, request: &LoginRequest, event: &LoginEvent) -> (next: Option<(LoginPhase, LoginAction)>)
    ensures
        login_step_result(phase, *request, *event, next),
{
    match (phase, event) {
        (LoginPhase::Starting, LoginEvent::Start) => Some(
            (
                LoginPhase::Connecting,
                LoginAction::Connect {
                    host: request.host.clone(),
                    port: request.port,
                    inactivity_timeout_secs: INACTIVITY_TIMEOUT_SECS,
                },
            ),
        ),
        (LoginPhase::Connecting, LoginEvent::Connected) => Some(
            (
                LoginPhase::Authenticating,
                LoginAction::SendPassword {
                    username: request.username.clone(),
                    password: request.password.clone(),
                },
            ),
        ),
        (LoginPhase::Connecting, LoginEvent::ConnectFailed(err)) => Some(
            (LoginPhase::Finished, LoginAction::Reject(prefixed_message(CONNECT_FAILED_PREFIX, err))),
        ),
        (LoginPhase::Authenticating, LoginEvent::AuthFailed(err)) => Some(
            (LoginPhase::Finished, LoginAction::Reject(prefixed_message(AUTH_FAILED_PREFIX, err))),
        ),
        (LoginPhase::Authenticating, LoginEvent::AuthAnswered(accepted)) => {
            if *accepted {
                Some((LoginPhase::Finished, LoginAction::Accept))
            } else {
                Some(
                    (
                        LoginPhase::Finished,
                        LoginAction::Reject(String::from_str(AUTH_REJECTED_MESSAGE)),
                    ),
                )
            }
        },
        _ => None,
    }
}

/// A finished login takes no more events; every event that the phase takes
/// moves the login forward (Starting, Connecting, Authenticating, Finished);
/// the connection is opened only at the start and the password sent only once
/// connected; a login is accepted only from an accepted password.
pub proof fn lemma_login_moves_forward(
    phase: LoginPhase,
    request: LoginRequest,
    event: LoginEvent,
    next: Option<(LoginPhase, LoginAction)>,
)
    requires
        login_step_result(phase, request, event, next),
    ensures
        phase == LoginPhase::Finished ==> next is None,
        next matches Some((p, _)) ==> (phase == LoginPhase::Starting && p == LoginPhase::Connecting)
            || (phase == LoginPhase::Connecting && p != LoginPhase::Connecting && p != LoginPhase::Starting)
            || (phase == LoginPhase::Authenticating && p == LoginPhase::Finished),
        next matches Some((_, LoginAction::Connect { .. })) ==> phase == LoginPhase::Starting,
        next matches Some((_, LoginAction::SendPassword { .. })) ==> event == LoginEvent::Connected,
        next matches Some((_, LoginAction::Accept)) ==> event == LoginEvent::AuthAnswered(true),
{
}

/// The login hands the SSH calls exactly what was asked for: the connection
/// goes to the requested host and port with the 30-second idle timeout, and
/// the password step sends the requested user name and password, whole; and
/// these come only at the start and once connected.
pub proof fn lemma_login_sends_request(
    phase: LoginPhase,
    request: LoginRequest,
    event: LoginEvent,
    next: Option<(LoginPhase, LoginAction)>,
)
    requires
        login_step_result(phase, request, event, next),
    ensures
        next matches Some((_, LoginAction::Connect { host, port, inactivity_timeout_secs })) ==> (host@
            == request.host@ && port == request.port && inactivity_timeout_secs == 30
            && phase == LoginPhase::Starting && event == LoginEvent::Start),
        next matches Some((_, LoginAction::SendPassword { username, password })) ==> (username@
            == request.username@ && password@ == request.password@ && username@.len()
            == request.username@.len() && password@.len() == request.password@.len()
            && phase == LoginPhase::Connecting && event == LoginEvent::Connected),
        phase == LoginPhase::Starting && event == LoginEvent::Start ==> next is Some,
        phase == LoginPhase::Connecting && event == LoginEvent::Connected ==> next is Some,
{
}

} // verus!
