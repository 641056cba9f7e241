//! The I/O adapter: what lets the local engine's client treat the remote
//! channel as a terminal. Reads come from the bridge's inbound-data channel
//! with a one-slot replay buffer that protects against delivering input to a
//! thread whose session has ended; writes are UTF-8-decoded and forwarded as
//! outbound notifications, best effort and never blocking.

use vstd::prelude::*;
use std::sync::Arc;
use std::sync::Mutex;
use crate::channels::channel_is_empty;
use crate::channels::channel_recv;
use crate::channels::name_cell_read;
use crate::channels::name_cell_write;
use crate::channels::out_channel_sender_clone;
use crate::channels::pause_millis;
use crate::channels::try_connect_to_engine;
use crate::lifecycle::same_name;
use crate::pane_size::Size;
use crate::protocol::ServerChannelId;
use crate::protocol::SignalKind;
use crate::protocol::WinSize;

verus! {

/// A notification from the local client to the transport side: decoded
/// output to send to the remote peer, or the end of the client run.
#[derive(Clone, Debug)]
pub enum ZellijClientData {
    Data(String),
    Exit,
}

/// A ghost record of one outbound notification, by its decoded text.
pub enum OutEvent {
    Data(Seq<char>),
    Exit,
}

/// The ghost record of an outbound notification.
pub open spec fn spec_out_event(m: ZellijClientData) -> OutEvent {
    match m {
        ZellijClientData::Data(s) => OutEvent::Data(s@),
        ZellijClientData::Exit => OutEvent::Exit,
    }
}

/// What a byte buffer decodes to, replacing invalid sequences; the result
/// depends on the bytes alone.
pub uninterp spec fn lossy_decode(bytes: Seq<u8>) -> Seq<char>;

/// Relies on String::from_utf8_lossy: decodes UTF-8, substituting the
/// replacement character for invalid sequences; valid UTF-8 decodes exactly.
#[verifier::external_body]
fn utf8_lossy(buf: &[u8]) -> (s: String)
    ensures
        s@ == lossy_decode(buf@),
        vstd::utf8::valid_utf8(buf@) ==> s@ == vstd::utf8::decode_utf8(buf@),
{
    String::from_utf8_lossy(buf).to_string()
}

/// The outbound sink handed to the local engine as its standard output:
/// every write is decoded and forwarded as a notification; none blocks and
/// none fails. The ghost log records what was forwarded.
pub struct ServerOutput {
    pub sender: tokio::sync::mpsc::UnboundedSender<ZellijClientData>,
    pub log: Ghost<Seq<OutEvent>>,
}

/// Relies on tokio::sync::mpsc::UnboundedSender::send: queues the message
/// for the forwarding task without blocking; when the receiver is gone the
/// message is dropped, which best-effort delivery accepts.
#[verifier::external_body]
fn sink_send(out: &mut ServerOutput, msg: ZellijClientData)
    ensures
        final (out).log@ == old(out).log@.push(spec_out_event(msg)),
{
    let _ = out.sender.send(msg);
}

impl ServerOutput {
    /// A sink over the given outbound channel, with an empty log.
    pub fn new(sender: tokio::sync::mpsc::UnboundedSender<ZellijClientData>) -> (w: ServerOutput)
        ensures
            w.sender == sender,
            w.log@ == Seq::<OutEvent>::empty(),
    {
        ServerOutput { sender, log: Ghost(Seq::empty()) }
    }

    /// Decodes the buffer (lossily) and forwards it as outbound data; the
    /// whole buffer counts as written, and writing never fails.
    pub fn write(&mut self, buf: &[u8]) -> (n: usize)
        ensures
            final (self).log@ == old(self).log@.push(OutEvent::Data(lossy_decode(buf@))),
            n == buf@.len(),
            vstd::utf8::valid_utf8(buf@) ==> lossy_decode(buf@) == vstd::utf8::decode_utf8(buf@),
    {
        let s = utf8_lossy(buf);
        sink_send(self, ZellijClientData::Data(s));
        buf.len()
    }

    /// Forwards the whole buffer as outbound data.
    pub fn write_all(&mut self, buf: &[u8])
        ensures
            final (self).log@ == old(self).log@.push(OutEvent::Data(lossy_decode(buf@))),
            vstd::utf8::valid_utf8(buf@) ==> lossy_decode(buf@) == vstd::utf8::decode_utf8(buf@),
    {
        let _ = self.write(buf);
    }

    /// Nothing is buffered, so there is nothing to flush.
    pub fn flush(&mut self)
        ensures
            *final (self) == *old(self),
    {
    }

    /// Signals the end of the client run: the forwarding task closes the
    /// remote channel on this notification.
    pub fn send_exit(&mut self)
        ensures
            final (self).log@ == old(self).log@.push(OutEvent::Exit),
    {
        sink_send(self, ZellijClientData::Exit);
    }
}

/// The escape sequence that enables the mouse-tracking protocol variants.
pub open spec fn mouse_enable_seq() -> Seq<char> {
    "\u{1b}[?1000h\u{1b}[?1002h\u{1b}[?1015h\u{1b}[?1006h"@
}

/// The escape sequence that disables them again, in reverse order.
pub open spec fn mouse_disable_seq() -> Seq<char> {
    "\u{1b}[?1006l\u{1b}[?1015l\u{1b}[?1002l\u{1b}[?1000l"@
}

/// Errors the read side of the adapter reports to the local client loop.
#[derive(Clone, Copy, Debug, PartialEq, Eq, Structural)]
pub enum StdinError {
    /// The inbound-data channel is disconnected: the connection is gone.
    Disconnected,
    /// The session this thread serves ended while the read was blocked; the
    /// received bytes are stashed for the thread that took over.
    SessionEnded,
}

/// The session changed under a blocked read: a name was cached when the
/// read began, and the name afterwards is no longer the same. An unset name
/// at call time means no staleness check applies.
pub open spec fn session_switched(at_call: Option<String>, after: Option<String>) -> bool {
    match at_call {
        Some(a) => match after {
            Some(b) => !same_name(a@, b@),
            None => true,
        },
        None => false,
    }
}

/// How one received chunk is delivered, given the session name when the
/// read began and when it completed.
#[derive(Debug, PartialEq, Eq)]
pub enum StdinRead {
    /// The session is unchanged: the bytes go to this caller.
    Fresh(Vec<u8>),
    /// The session changed mid-read: the bytes belong to the session that
    /// took over and must be stashed; this caller is told its session ended.
    Stale(Vec<u8>),
}

/// Decides whether a received chunk still belongs to this caller: it is
/// stale exactly when a session name was cached at call time and the name
/// after the read is no longer the same.
pub fn classify_stdin_read(
    name_at_call: &Option<String>,
    name_after: &Option<String>,
    received: Vec<u8>,
) -> (r: StdinRead)
    ensures
        session_switched(*name_at_call, *name_after) ==> r == StdinRead::Stale(received),
        !session_switched(*name_at_call, *name_after) ==> r == StdinRead::Fresh(received),
{
    let switched = match (name_at_call, name_after) {
        (Some(a), Some(b)) => !crate::bytestr::bytes_eq(
            a.as_str().as_bytes(),
            b.as_str().as_bytes(),
        ),
        (Some(_), None) => true,
        (None, _) => false,
    };
    if switched {
        StdinRead::Stale(received)
    } else {
        StdinRead::Fresh(received)
    }
}

/// The outcome of waiting on the inbound-signal channel.
#[derive(Clone, Copy, Debug, PartialEq, Eq, Structural)]
pub enum SignalOutcome {
    /// A terminate-class signal arrived: the caller's quit path runs.
    Quit,
    /// A signal outside the terminate class arrived. The upstream mapping
    /// forwards none, so reaching this is a defect there; it is reported
    /// rather than crashing the client thread.
    Unexpected,
    /// The signal channel is disconnected.
    Disconnected,
}

/// The outcome a received signal maps to: terminate-class signals quit,
/// everything else is unexpected by construction of the upstream mapping.
pub fn signal_outcome(sig: SignalKind) -> (r: SignalOutcome)
    ensures
        sig.spec_is_terminate() ==> r == SignalOutcome::Quit,
        !sig.spec_is_terminate() ==> r == SignalOutcome::Unexpected,
{
    if sig.is_terminate() {
        SignalOutcome::Quit
    } else {
        SignalOutcome::Unexpected
    }
}

/// The adapter bound to one shell of one connection: the capability set the
/// local engine expects from a terminal, satisfied by the bridge's channels.
pub struct SshInputOutput {
    /// The geometry captured from the PTY request.
    pub win_size: WinSize,
    /// The channel the shell runs on.
    pub channel_id: ServerChannelId,
    /// The outbound sink; remote-bound output and the exit notification.
    pub stdout: ServerOutput,
    /// The one-slot replay buffer for input read on behalf of a session
    /// that ended mid-read.
    pub stashed_stdin: Option<Vec<u8>>,
    /// The session name this connection is attached to, shared with the
    /// local engine, which rewrites it when the user switches sessions.
    pub session_name: Arc<Mutex<Option<String>>>,
    /// The connection to the local engine's socket, once established.
    pub server_connection: Option<interprocess::local_socket::Stream>,
    /// Inbound data from the remote peer.
    pub server_receiver: crossbeam_channel::Receiver<Vec<u8>>,
    /// Inbound signals from the remote peer.
    pub server_signal_receiver: crossbeam_channel::Receiver<SignalKind>,
}

impl SshInputOutput {
    /// The terminal size the engine sees: the cached PTY geometry. The file
    /// descriptor a real terminal would be measured through is ignored.
    pub fn get_terminal_size_using_fd(&self, _fd: i32) -> (s: Size)
        ensures
            s.rows == self.win_size.ws_row as usize,
            s.cols == self.win_size.ws_col as usize,
    {
        Size { rows: self.win_size.ws_row as usize, cols: self.win_size.ws_col as usize }
    }

    /// Replaces the cached geometry; called by the orchestration layer, not
    /// automatically on window-change events.
    pub fn set_terminal_size(&mut self, win_size: WinSize)
        ensures
            final (self).win_size == win_size,
            final (self).stashed_stdin == old(self).stashed_stdin,
            final (self).channel_id == old(self).channel_id,
            final (self).stdout == old(self).stdout,
    {
        self.win_size = win_size;
    }

    /// Raw mode does not apply to a channel that is not a real terminal;
    /// the call satisfies the interface and changes nothing.
    pub fn set_raw_mode(&mut self)
        ensures
            *final (self) == *old(self),
    {
    }

    /// The matching no-op for leaving raw mode; it never fails.
    pub fn unset_raw_mode(&self) -> (r: Result<(), ()>)
        ensures
            r is Ok,
    {
        Ok(())
    }

    /// Records the session this connection is now attached to; the shared
    /// cell is read by blocked reads to detect a session switch.
    pub fn update_session_name(&self, new_session_name: String) {
        name_cell_write(&self.session_name, Some(new_session_name));
    }

    /// One read of the engine's standard input. A stashed chunk from a
    /// prior stale read is returned first, without touching the channel.
    /// Otherwise the call blocks on the inbound-data channel; if the
    /// session name changed while it was blocked, the received bytes are
    /// stashed for the successor and the caller is told its session ended.
    pub fn read_from_stdin(&mut self) -> (r: Result<Vec<u8>, StdinError>)
        ensures
            old(self).stashed_stdin matches Some(b) ==> r == Ok::<Vec<u8>, StdinError>(b)
                && final (self).stashed_stdin is None,
            old(self).stashed_stdin is None && (r matches Ok(_)) ==> final (self).stashed_stdin is None,
            r == Err::<Vec<u8>, StdinError>(StdinError::SessionEnded) ==> final (self).stashed_stdin is Some,
            r == Err::<Vec<u8>, StdinError>(StdinError::Disconnected) ==> final (self).stashed_stdin
                == old(self).stashed_stdin,
            final (self).win_size == old(self).win_size,
            final (self).channel_id == old(self).channel_id,
            final (self).stdout == old(self).stdout,
    {
        let name_at_call = name_cell_read(&self.session_name);
        let stashed = self.stashed_stdin.take();
        match stashed {
            Some(buffered) => Ok(buffered),
            None => {
                let received = match channel_recv(&self.server_receiver) {
                    Some(data) => data,
                    None => {
                        return Err(StdinError::Disconnected);
                    },
                };
                let name_after = name_cell_read(&self.session_name);
                match classify_stdin_read(&name_at_call, &name_after, received) {
                    StdinRead::Fresh(data) => Ok(data),
                    StdinRead::Stale(data) => {
                        self.stashed_stdin = Some(data);
                        Err(StdinError::SessionEnded)
                    },
                }
            },
        }
    }

    /// A fresh handle on the outbound sink, with its own empty log.
    pub fn get_stdout_writer(&self) -> (w: ServerOutput)
        ensures
            w.log@ == Seq::<OutEvent>::empty(),
    {
        ServerOutput::new(out_channel_sender_clone(&self.stdout.sender))
    }

    /// Waits for a signal from the remote peer and reports how the client
    /// loop must react; which signal arrives is up to the peer.
    pub fn handle_signals(&self) -> (r: SignalOutcome) {
        match channel_recv(&self.server_signal_receiver) {
            Some(sig) => signal_outcome(sig),
            None => SignalOutcome::Disconnected,
        }
    }

    /// Writes the escape sequence that turns the mouse-tracking protocol
    /// variants on, through the outbound sink; it never fails.
    pub fn enable_mouse(&mut self) -> (r: Result<(), ()>)
        ensures
            r is Ok,
            final (self).stdout.log@ == old(self).stdout.log@.push(
                OutEvent::Data(mouse_enable_seq()),
            ),
            final (self).win_size == old(self).win_size,
            final (self).stashed_stdin == old(self).stashed_stdin,
    {
        let seq = "\u{1b}[?1000h\u{1b}[?1002h\u{1b}[?1015h\u{1b}[?1006h";
        self.stdout.write_all(seq.as_bytes());
        proof {
            broadcast use vstd::utf8::encode_utf8_valid_utf8, vstd::utf8::encode_utf8_decode_utf8;

        }
        Ok(())
    }

    /// Writes the escape sequence that turns mouse tracking off again; it
    /// never fails.
    pub fn disable_mouse(&mut self) -> (r: Result<(), ()>)
        ensures
            r is Ok,
            final (self).stdout.log@ == old(self).stdout.log@.push(
                OutEvent::Data(mouse_disable_seq()),
            ),
            final (self).win_size == old(self).win_size,
            final (self).stashed_stdin == old(self).stashed_stdin,
    {
        let seq = "\u{1b}[?1006l\u{1b}[?1015l\u{1b}[?1002l\u{1b}[?1000l";
        self.stdout.write_all(seq.as_bytes());
        proof {
            broadcast use vstd::utf8::encode_utf8_valid_utf8, vstd::utf8::encode_utf8_decode_utf8;

        }
        Ok(())
    }

    /// Connects to the local engine's socket, retrying at a fixed short
    /// interval: the engine may still be starting when the first attempts
    /// are made. The retry is bounded with an explicit failure, so a caller
    /// that wants the unbounded behavior loops over it; success is reported
    /// exactly when the connection is now held.
    pub fn connect_to_server(&mut self, path: &str, max_attempts: u64) -> (connected: bool)
        ensures
            connected ==> final (self).server_connection is Some,
            !connected ==> final (self).server_connection == old(self).server_connection,
            final (self).win_size == old(self).win_size,
            final (self).channel_id == old(self).channel_id,
            final (self).stdout == old(self).stdout,
            final (self).stashed_stdin == old(self).stashed_stdin,
            final (self).session_name == old(self).session_name,
            final (self).server_receiver == old(self).server_receiver,
            final (self).server_signal_receiver == old(self).server_signal_receiver,
    {
        let mut attempts_left = max_attempts;
        while attempts_left > 0
            invariant
                *self == *old(self),
            decreases attempts_left,
        {
            match try_connect_to_engine(path) {
                Some(stream) => {
                    self.server_connection = Some(stream);
                    return true;
                },
                None => {
                    pause_millis(ENGINE_CONNECT_RETRY_MS);
                },
            }
            attempts_left = attempts_left - 1;
        }
        false
    }

    /// A readiness poller over the inbound-data channel.
    pub fn stdin_poller(&self) -> ServerStdinPoller {
        ServerStdinPoller::new(crate::channels::channel_receiver_clone(&self.server_receiver))
    }

    /// Ends the client run: the forwarding task closes the remote channel
    /// on the exit notification.
    pub fn close(&mut self)
        ensures
            final (self).stdout.log@ == old(self).stdout.log@.push(OutEvent::Exit),
            final (self).win_size == old(self).win_size,
            final (self).stashed_stdin == old(self).stashed_stdin,
    {
        self.stdout.send_exit();
    }
}

/// Readiness polling for the engine's input: sleep a fixed short interval,
/// then report whether data is queued.
pub struct ServerStdinPoller {
    pub receiver: crossbeam_channel::Receiver<Vec<u8>>,
}

/// How long one poll waits before looking, in milliseconds.
pub const STDIN_POLL_INTERVAL_MS: u64 = 10;

/// How long to wait between attempts to reach the local engine's socket,
/// in milliseconds.
pub const ENGINE_CONNECT_RETRY_MS: u64 = 50;

impl ServerStdinPoller {
    /// A poller over the given inbound-data channel.
    pub fn new(receiver: crossbeam_channel::Receiver<Vec<u8>>) -> (p: ServerStdinPoller)
        ensures
            p.receiver == receiver,
    {
        ServerStdinPoller { receiver }
    }

    /// Sleeps the poll interval, then reports whether input is queued; the
    /// answer is a snapshot that concurrent senders may outdate at once.
    pub fn ready(&mut self) -> bool {
        pause_millis(STDIN_POLL_INTERVAL_MS);
        !channel_is_empty(&self.receiver)
    }
}

} // verus!
