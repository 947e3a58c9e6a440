# nagx

Core library of NAGX, an SSH-native visual operations environment, verified
with Verus.

- `src/keys.rs`: key presses (text, Control, Alt) to the bytes a PTY expects.
- `src/emulator.rs`: the VT100 terminal emulator over the `vt100` parser.
- `src/ssh.rs`: host-key decision and the password-login state machine.
- `src/client.rs`: connect-form validation, the server label, the status
  line and which key presses are sent.
- `src/session.rs`, `src/config.rs`, `src/terminal.rs`, `src/resource.rs`,
  `src/protocol.rs`, `src/constants.rs`: the shared model.
- `app/`: the daemon entry point and the russh transport, which drives the
  login state machine of the library.
