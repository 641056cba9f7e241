//! The per-connection session bridge: consumes the protocol handler's
//! events strictly in arrival order, enforces the event sequencing rules
//! (authenticate, capture the PTY geometry, then at most one shell), and
//! owns the channels that carry data and signals to the local client
//! thread. What the bridge cannot do itself — acknowledge the handler,
//! start the local engine, spawn the client thread — it returns as an
//! action for the transport loop to perform.

use vstd::prelude::*;
use crate::adapter::ServerOutput;
use crate::adapter::SshInputOutput;
use crate::adapter::ZellijClientData;
use crate::channels::channel_receiver_clone;
use crate::channels::channel_send;
use crate::channels::channel_unbounded;
use crate::channels::name_cell_new;
use crate::lifecycle::AttachCommand;
use crate::lifecycle::CliIntent;
use crate::protocol::HandlerEvent;
use crate::protocol::PtyRequest;
use crate::protocol::ServerChannelId;
use crate::protocol::SignalKind;
use crate::protocol::WinSize;
use crate::protocol::spec_win_size;
use crate::Ssh;

verus! {

/// Where a connection stands: each phase is entered at most once, in this
/// order.
#[derive(Clone, Copy, Debug, PartialEq, Eq, Structural)]
pub enum BridgePhase {
    Unauthenticated,
    Authenticated,
    PtyCaptured,
    ShellRunning,
}

/// An event that arrived out of the order the protocol requires; the bridge
/// rejects it and keeps its state.
#[derive(Clone, Copy, Debug, PartialEq, Eq, Structural)]
pub enum ProtocolViolation {
    /// Only authentication is accepted first.
    NotAuthenticated,
    /// A second authentication on a live connection.
    AlreadyAuthenticated,
    /// The PTY geometry is captured once and is immutable afterwards.
    PtyAlreadyCaptured,
    /// A shell request with no PTY captured for the channel.
    ShellBeforePty,
    /// A second shell request while one shell is running.
    ShellAlreadyRunning,
}

/// What the transport loop must do after the bridge handled an event.
#[derive(Clone, Debug, PartialEq)]
pub enum BridgeAction {
    /// Register the reply handle, start the local engine if none runs yet,
    /// and signal readiness on the acknowledgement channel.
    Acknowledge { start_engine: bool },
    /// The geometry is cached; the transport already replied success.
    GeometryCaptured,
    /// Spawn the client thread on this channel with this geometry, and the
    /// task that forwards outbound notifications.
    SpawnShell { channel: ServerChannelId, win_size: WinSize },
    /// The data was pushed onto the inbound-data channel.
    DataForwarded,
    /// The signal was pushed onto the inbound-signal channel.
    SignalForwarded,
    /// Geometry changes after shell start are deliberately not applied.
    WindowChangeIgnored,
    /// The event broke the required ordering and was dropped.
    Rejected(ProtocolViolation),
}

/// One bridge per connection: the protocol state, the caller's intent for
/// the client run, and the channels crossing to the client thread.
pub struct Session {
    pub phase: BridgePhase,
    /// The geometry captured from the PTY request, immutable once set.
    pub pty_request: Option<PtyRequest>,
    /// The channel the PTY was requested on.
    pub channel_id: Option<ServerChannelId>,
    /// The intent the client run is resolved from; authentication points it
    /// at the session this connection serves.
    pub intent: CliIntent,
    pub data_sender: crossbeam_channel::Sender<Vec<u8>>,
    pub signal_sender: crossbeam_channel::Sender<SignalKind>,
    pub data_receiver: crossbeam_channel::Receiver<Vec<u8>>,
    pub signal_receiver: crossbeam_channel::Receiver<SignalKind>,
}

/// The attach intent authentication installs: attach to the session this
/// host already runs (when one is named by the environment), never create
/// here — the engine startup decision is separate.
pub open spec fn spec_auth_command(env_session_name: Option<String>) -> AttachCommand {
    AttachCommand {
        session_name: env_session_name,
        create: false,
        force_run_commands: false,
        index: None,
        options: None,
    }
}

impl Session {
    /// The phases that have a captured geometry to rely on.
    pub open spec fn wf(self) -> bool {
        (self.phase == BridgePhase::PtyCaptured || self.phase == BridgePhase::ShellRunning)
            ==> self.pty_request is Some && self.channel_id is Some
    }

    /// The transition relation of the bridge, one event at a time: the next
    /// state and the action the transport loop performs. Events that break
    /// the required order are rejected and change nothing. Data and signals
    /// are forwarded in every phase; window changes are accepted and
    /// deliberately not applied.
    pub open spec fn spec_step(
        self,
        event: HandlerEvent,
        env_session_name: Option<String>,
    ) -> (Session, BridgeAction) {
        match event {
            HandlerEvent::Authenticated => {
                if self.phase == BridgePhase::Unauthenticated {
                    let next = Session {
                        phase: BridgePhase::Authenticated,
                        intent: CliIntent {
                            command: Some(spec_auth_command(env_session_name)),
                            ..self.intent
                        },
                        ..self
                    };
                    (
                        next,
                        BridgeAction::Acknowledge { start_engine: env_session_name is None },
                    )
                } else {
                    (self, BridgeAction::Rejected(ProtocolViolation::AlreadyAuthenticated))
                }
            },
            HandlerEvent::PtyRequest(channel, request) => {
                if self.phase == BridgePhase::Unauthenticated {
                    (self, BridgeAction::Rejected(ProtocolViolation::NotAuthenticated))
                } else if self.phase == BridgePhase::Authenticated {
                    let next = Session {
                        phase: BridgePhase::PtyCaptured,
                        pty_request: Some(request),
                        channel_id: Some(channel),
                        ..self
                    };
                    (next, BridgeAction::GeometryCaptured)
                } else {
                    (self, BridgeAction::Rejected(ProtocolViolation::PtyAlreadyCaptured))
                }
            },
            HandlerEvent::ShellRequest(channel) => {
                if self.phase == BridgePhase::PtyCaptured {
                    let next = Session { phase: BridgePhase::ShellRunning, ..self };
                    (
                        next,
                        BridgeAction::SpawnShell {
                            channel,
                            win_size: spec_win_size(self.pty_request->Some_0),
                        },
                    )
                } else if self.phase == BridgePhase::ShellRunning {
                    (self, BridgeAction::Rejected(ProtocolViolation::ShellAlreadyRunning))
                } else {
                    (self, BridgeAction::Rejected(ProtocolViolation::ShellBeforePty))
                }
            },
            HandlerEvent::Data(_, _) => (self, BridgeAction::DataForwarded),
            HandlerEvent::Signal(_, _) => (self, BridgeAction::SignalForwarded),
            HandlerEvent::WindowChangeRequest(_, _) => (self, BridgeAction::WindowChangeIgnored),
        }
    }

    /// A bridge for a fresh connection, with its own data and signal
    /// channels, driven by the given intent.
    pub fn new(intent: CliIntent) -> (b: Session)
        ensures
            b.phase == BridgePhase::Unauthenticated,
            b.pty_request is None,
            b.channel_id is None,
            b.intent == intent,
            b.wf(),
    {
        let (data_sender, data_receiver) = channel_unbounded::<Vec<u8>>();
        let (signal_sender, signal_receiver) = channel_unbounded::<SignalKind>();
        Session {
            phase: BridgePhase::Unauthenticated,
            pty_request: None,
            channel_id: None,
            intent,
            data_sender,
            signal_sender,
            data_receiver,
            signal_receiver,
        }
    }

    /// Handles one event: steps the state machine, pushes data and signals
    /// onto their channels, and returns the action left to the transport
    /// loop. The environment's session name is read by the caller at
    /// authentication time.
    pub fn handle_event(&mut self, event: HandlerEvent, env_session_name: Option<String>) -> (a:
        BridgeAction)
        requires
            old(self).wf(),
        ensures
            *final (self) == old(self).spec_step(event, env_session_name).0,
            a == old(self).spec_step(event, env_session_name).1,
            final (self).wf(),
    {
        match event {
            HandlerEvent::Authenticated => {
                if matches!(self.phase, BridgePhase::Unauthenticated) {
                    let start_engine = env_session_name.is_none();
                    self.phase = BridgePhase::Authenticated;
                    self.intent.command = Some(
                        AttachCommand {
                            session_name: env_session_name,
                            create: false,
                            force_run_commands: false,
                            index: None,
                            options: None,
                        },
                    );
                    BridgeAction::Acknowledge { start_engine }
                } else {
                    BridgeAction::Rejected(ProtocolViolation::AlreadyAuthenticated)
                }
            },
            HandlerEvent::PtyRequest(channel, request) => {
                match self.phase {
                    BridgePhase::Unauthenticated => BridgeAction::Rejected(
                        ProtocolViolation::NotAuthenticated,
                    ),
                    BridgePhase::Authenticated => {
                        self.phase = BridgePhase::PtyCaptured;
                        self.pty_request = Some(request);
                        self.channel_id = Some(channel);
                        BridgeAction::GeometryCaptured
                    },
                    _ => BridgeAction::Rejected(ProtocolViolation::PtyAlreadyCaptured),
                }
            },
            HandlerEvent::ShellRequest(channel) => {
                match self.phase {
                    BridgePhase::PtyCaptured => {
                        let win_size = match &self.pty_request {
                            Some(request) => request.win_size(),
                            None => {
                                proof {
                                    assert(false);
                                }
                                WinSize { ws_row: 0, ws_col: 0, ws_xpixel: 0, ws_ypixel: 0 }
                            },
                        };
                        self.phase = BridgePhase::ShellRunning;
                        BridgeAction::SpawnShell { channel, win_size }
                    },
                    BridgePhase::ShellRunning => BridgeAction::Rejected(
                        ProtocolViolation::ShellAlreadyRunning,
                    ),
                    _ => BridgeAction::Rejected(ProtocolViolation::ShellBeforePty),
                }
            },
            HandlerEvent::Data(_, data) => {
                let _ = channel_send(&self.data_sender, data);
                BridgeAction::DataForwarded
            },
            HandlerEvent::Signal(_, signal) => {
                let _ = channel_send(&self.signal_sender, signal);
                BridgeAction::SignalForwarded
            },
            HandlerEvent::WindowChangeRequest(_, _) => BridgeAction::WindowChangeIgnored,
        }
    }

    /// The adapter for the shell the bridge just allowed: bound to the
    /// captured geometry and channel, reading from this bridge's data and
    /// signal channels, writing to the given outbound channel, with an
    /// empty replay buffer.
    pub fn make_adapter(
        &self,
        win_size: WinSize,
        channel_id: ServerChannelId,
        sender: tokio::sync::mpsc::UnboundedSender<ZellijClientData>,
    ) -> (io: SshInputOutput)
        ensures
            io.win_size == win_size,
            io.channel_id == channel_id,
            io.stashed_stdin is None,
            io.server_connection is None,
            io.stdout.log@ == Seq::<crate::adapter::OutEvent>::empty(),
    {
        SshInputOutput {
            win_size,
            channel_id,
            stdout: ServerOutput::new(sender),
            stashed_stdin: None,
            server_connection: None,
            session_name: name_cell_new(),
            server_receiver: channel_receiver_clone(&self.data_receiver),
            server_signal_receiver: channel_receiver_clone(&self.signal_receiver),
        }
    }
}

/// The rank of a phase in the connection's lifecycle order.
pub open spec fn phase_rank(p: BridgePhase) -> int {
    match p {
        BridgePhase::Unauthenticated => 0,
        BridgePhase::Authenticated => 1,
        BridgePhase::PtyCaptured => 2,
        BridgePhase::ShellRunning => 3,
    }
}

/// The bridge never moves backwards: handling an event keeps or advances
/// the phase, so each phase of a connection is entered at most once.
pub proof fn lemma_phase_monotone(
    pre: Session,
    event: HandlerEvent,
    env_session_name: Option<String>,
)
    ensures
        phase_rank(pre.spec_step(event, env_session_name).0.phase) >= phase_rank(pre.phase),
{
}

/// Stepping a well-formed bridge leaves it well-formed: whenever a phase
/// relies on a captured geometry, the geometry is there.
pub proof fn lemma_step_preserves_wf(
    pre: Session,
    event: HandlerEvent,
    env_session_name: Option<String>,
)
    requires
        pre.wf(),
    ensures
        pre.spec_step(event, env_session_name).0.wf(),
{
}

/// A shell request on a connection whose PTY was never captured is turned
/// away in every such state: the bridge keeps its state unchanged and
/// rejects the request instead of reaching the spawn path.
pub proof fn lemma_shell_before_pty_rejected(
    pre: Session,
    channel: ServerChannelId,
    env_session_name: Option<String>,
)
    requires
        pre.phase == BridgePhase::Unauthenticated || pre.phase == BridgePhase::Authenticated,
    ensures
        pre.spec_step(HandlerEvent::ShellRequest(channel), env_session_name).0 == pre,
        pre.spec_step(HandlerEvent::ShellRequest(channel), env_session_name).1
            == BridgeAction::Rejected(ProtocolViolation::ShellBeforePty),
{
}

/// A second shell request while a shell is running is rejected and changes
/// nothing: the shell-running phase is entered at most once.
pub proof fn lemma_shell_runs_at_most_once(
    pre: Session,
    channel: ServerChannelId,
    env_session_name: Option<String>,
)
    requires
        pre.phase == BridgePhase::ShellRunning,
    ensures
        pre.spec_step(HandlerEvent::ShellRequest(channel), env_session_name).0 == pre,
        pre.spec_step(HandlerEvent::ShellRequest(channel), env_session_name).1
            == BridgeAction::Rejected(ProtocolViolation::ShellAlreadyRunning),
{
}

/// The transport server: what it needs to serve connections — the caller's
/// intent, handed to each bridge, and the listener options.
pub struct Server {
    pub args: CliIntent,
    pub ssh_opts: Ssh,
}

impl Server {
    /// A server that resolves every connection's client run from the given
    /// intent and listens as the options say.
    pub fn new(args: CliIntent, ssh_opts: Ssh) -> (s: Server)
        ensures
            s.args == args,
            s.ssh_opts == ssh_opts,
    {
        Server { args, ssh_opts }
    }
}

} // verus!
