//! Core library of the NAGX visual operations environment: terminal input
//! encoding, the terminal emulator, sessions, configuration and the shared
//! resource and protocol model.
use vstd::prelude::*;

pub mod client;
pub mod config;
pub mod constants;
pub mod emulator;
pub mod keys;
pub mod protocol;
pub mod resource;
pub mod session;
pub mod ssh;
pub mod terminal;

verus! {

} // verus!
