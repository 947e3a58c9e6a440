use nagx::config::{ServerConfig, DEFAULT_SSH_PORT};
use nagx::constants::{Permission, WindowState, Workspace, APP_NAME, PROTOCOL_MAJOR, PROTOCOL_MINOR, PROTOCOL_NAME};
use nagx::protocol::{MessageKind, PROTOCOL_VERSION};
use nagx::resource::{ResourceSnapshot, ServerIdentity, ServiceState};
use nagx::session::{SessionId, SessionState};
use nagx::terminal::{Signal, TerminalEvent, TerminalSize};

#[test]
fn server_config_defaults_to_ssh_port() {
    let config = ServerConfig::new("example.org".to_string(), "root".to_string());
    assert_eq!(config.host, "example.org");
    assert_eq!(config.user, "root");
    assert_eq!(config.port, 22);
    assert_eq!(DEFAULT_SSH_PORT, 22);
}

#[test]
fn session_starts_disconnected() {
    let session = SessionState::new("s1".to_string(), "srv".to_string());
    assert_eq!(session.id, SessionId("s1".to_string()));
    assert_eq!(session.server, "srv");
    assert!(!session.connected);
}

#[test]
fn session_reconnect_and_disconnect() {
    let mut session = SessionState::new("s1".to_string(), "srv".to_string());
    let fresh = session.clone();
    session.reconnect();
    assert!(session.connected);
    session.reconnect();
    assert!(session.connected);
    session.disconnect();
    assert!(!session.connected);
    assert_eq!(session, fresh);
}

#[test]
fn terminal_size_default() {
    let size = TerminalSize::default();
    assert_eq!(size, TerminalSize { cols: 120, rows: 32 });
}

#[test]
fn terminal_events_compare_by_content() {
    assert_eq!(TerminalEvent::Input(vec![1, 2]), TerminalEvent::Input(vec![1, 2]));
    assert_ne!(TerminalEvent::Input(vec![1]), TerminalEvent::Output(vec![1]));
    assert_eq!(
        TerminalEvent::Resize(TerminalSize { cols: 80, rows: 24 }),
        TerminalEvent::Resize(TerminalSize { cols: 80, rows: 24 })
    );
    assert_ne!(TerminalEvent::Signal(Signal::Interrupt), TerminalEvent::Signal(Signal::Quit));
}

#[test]
fn resource_snapshot_default_is_zero() {
    let snapshot = ResourceSnapshot::default();
    assert_eq!(snapshot.cpu_percent, 0);
    assert_eq!(snapshot.memory_percent, 0);
    assert_eq!(snapshot.disk_percent, 0);
    assert_eq!(snapshot.network_rx_bytes, 0);
    assert_eq!(snapshot.network_tx_bytes, 0);
    assert_eq!(snapshot.gpu_count, 0);
}

#[test]
fn resource_records_hold_their_fields() {
    let identity = ServerIdentity {
        hostname: "box".to_string(),
        os: "Linux".to_string(),
        kernel: "6.1".to_string(),
        uptime_seconds: 42,
    };
    assert_eq!(identity.clone(), identity);
    let service = ServiceState { name: "sshd".to_string(), active: true, status: "running".to_string() };
    assert!(service.active);
}

#[test]
fn constants_and_enums() {
    assert_eq!(APP_NAME, "NAGX");
    assert_eq!(PROTOCOL_NAME, "NXP");
    assert_eq!((PROTOCOL_MAJOR, PROTOCOL_MINOR), (1, 0));
    assert_eq!(PROTOCOL_VERSION, "1.0");
    assert_ne!(WindowState::Normal, WindowState::Closed);
    assert_ne!(Permission::Read, Permission::Admin);
    assert_eq!(Workspace::Monitoring, Workspace::Monitoring);
    assert_ne!(MessageKind::Ping, MessageKind::Pong);
}
