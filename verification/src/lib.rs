//! Bridge between a remote transport protocol and a local terminal-multiplexer
//! engine: a protocol-level session state machine that turns transport events
//! into a locally addressable PTY session, the I/O adapter that lets the local
//! engine treat the remote channel as a terminal, and the session-lifecycle
//! resolution that decides whether to attach to, create, or resurrect a
//! session.

use vstd::prelude::*;

pub mod adapter;
pub mod bridge;
pub mod bytestr;
pub mod channels;
pub mod download;
pub mod lifecycle;
pub mod pane_size;
pub mod protocol;

verus! {

/// Whether the process serves remote transport clients or a local terminal.
#[derive(Clone, Debug, PartialEq, Eq, Structural)]
pub enum ServerMode {
    Ssh,
    Normal,
}

/// Listener options for the transport server.
#[derive(Clone, Copy, Debug, PartialEq, Eq, Structural)]
pub struct Ssh {
    /// TCP port the transport listener binds to.
    pub port: u16,
}

impl Ssh {
    /// The default listening port.
    pub fn default_port() -> (p: u16)
        ensures
            p == 6222u16,
    {
        6222
    }
}

} // verus!
