//! Launch session orchestration: a registry of running game-instance
//! processes, the runner that produces new registry entries, and the
//! state machine that drives a browser-based login handshake.
//!
//! All decision logic lives here and is verified; the OS and network
//! calls that the decisions govern (spawning, killing, opening a
//! browser surface, exchanging an authorization code) are performed by
//! the unverified shell around this crate, which feeds their outcomes
//! back in as plain values.

use vstd::prelude::*;

pub mod auth;
pub mod creds;
pub mod errors;
pub mod registry;
pub mod runner;
pub mod url_query;

verus! {

/// Build and platform information reported to the UI layer.
pub struct ProgramInfo {
    pub launcher_version: String,
    pub webview_version: String,
    pub tauri_version: String,
    pub dev_build: bool,
    pub platform: String,
    pub arch: String,
}

} // verus!
