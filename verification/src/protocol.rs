//! Events produced by the transport protocol handler, and the small pieces of
//! logic the handler applies before emitting them: the leading-byte remap of
//! interactive data and the capture of PTY geometry.

use vstd::prelude::*;

verus! {

/// Identifies one logical duplex stream within a connection.
#[derive(Clone, Copy, Debug, PartialEq, Eq, Structural, Hash)]
pub struct ServerChannelId(pub u64);

/// Terminal geometry in character cells and pixels.
#[derive(Clone, Copy, Debug, PartialEq, Eq, Structural)]
pub struct WinSize {
    pub ws_row: u16,
    pub ws_col: u16,
    pub ws_xpixel: u16,
    pub ws_ypixel: u16,
}

/// A PTY allocation request: terminal type, geometry and terminal modes.
/// Captured once per channel; it must precede the shell request.
#[derive(Clone, Debug)]
pub struct PtyRequest {
    pub term: String,
    pub col_width: u32,
    pub row_height: u32,
    pub pix_width: u32,
    pub pix_height: u32,
    /// Raw (opcode, argument) terminal mode pairs; carried through unread.
    pub modes: Vec<(u32, u32)>,
}

/// Signals forwarded from the remote peer.
#[derive(Clone, Copy, Debug, PartialEq, Eq, Structural)]
pub enum SignalKind {
    Abrt,
    Alrm,
    Fpe,
    Hup,
    Ill,
    Int,
    Kill,
    Pipe,
    Quit,
    Segv,
    Term,
    Usr1,
}

impl SignalKind {
    /// Whether the signal belongs to the terminate class that ends a running
    /// shell: HUP, INT, QUIT or TERM.
    pub open spec fn spec_is_terminate(self) -> bool {
        self == SignalKind::Hup || self == SignalKind::Int || self == SignalKind::Quit
            || self == SignalKind::Term
    }

    /// Classifies the signal; only terminate-class signals trigger the quit
    /// callback of the adapter's signal handler.
    pub fn is_terminate(&self) -> (r: bool)
        ensures
            r == self.spec_is_terminate(),
    {
        match self {
            SignalKind::Hup => true,
            SignalKind::Int => true,
            SignalKind::Quit => true,
            SignalKind::Term => true,
            _ => false,
        }
    }
}

/// One protocol event for a connection, consumed in arrival order by exactly
/// one session bridge. `Authenticated` carries no payload here: the reply
/// handle and the readiness acknowledgement stay with the transport loop,
/// which registers the handle before acknowledging.
#[derive(Clone, Debug)]
pub enum HandlerEvent {
    Authenticated,
    PtyRequest(ServerChannelId, PtyRequest),
    ShellRequest(ServerChannelId),
    Data(ServerChannelId, Vec<u8>),
    Signal(ServerChannelId, SignalKind),
    WindowChangeRequest(ServerChannelId, WinSize),
}

/// Errors of the protocol handler.
#[derive(Clone, Copy, Debug, PartialEq, Eq, Structural)]
pub enum HandlerError {
    /// The event channel's receiver is gone; the connection is torn down.
    ChannelSend,
}

impl HandlerError {
    /// A short description for display by the transport loop.
    pub fn message(&self) -> (m: &'static str)
        ensures
            m@.len() > 0,
    {
        proof {
            reveal_strlit("maybe channel disconnected");
        }
        match self {
            HandlerError::ChannelSend => "maybe channel disconnected",
        }
    }
}

/// The ASCII end-of-transmission code, typed interactively as Ctrl-D.
pub const EOT: u8 = 4;

/// The ASCII DC1 code the local engine expects for the detach action.
pub const DC1: u8 = 17;

/// The remap applied to an inbound data chunk before it is forwarded: a
/// leading end-of-transmission byte becomes DC1, every other byte is kept.
pub open spec fn spec_remap_leading_eot(data: Seq<u8>) -> Seq<u8> {
    if data.len() >= 1 && data[0] == EOT {
        data.update(0, DC1)
    } else {
        data
    }
}

/// Rewrites a leading end-of-transmission byte (Ctrl-D) to DC1 so that an
/// interactive detach keystroke reaches the local engine as the control code
/// it expects, instead of ending the stream. Only the first byte of a chunk
/// is remapped; all other bytes are unchanged. An empty chunk is passed
/// through unchanged rather than being indexed.
pub fn remap_leading_eot(data: Vec<u8>) -> (r: Vec<u8>)
    ensures
        r@ == spec_remap_leading_eot(data@),
        r@.len() == data@.len(),
{
    let mut data = data;
    if data.len() >= 1 && data[0] == EOT {
        data.set(0, DC1);
    }
    data
}

/// The geometry a window-change request carries, reduced to cell and pixel
/// counts. Dimensions wider than sixteen bits are truncated, as the terminal
/// geometry fields themselves are sixteen-bit.
pub fn winsize_from_dimensions(
    col_width: u32,
    row_height: u32,
    pix_width: u32,
    pix_height: u32,
) -> (w: WinSize)
    ensures
        w.ws_row == row_height as u16,
        w.ws_col == col_width as u16,
        w.ws_xpixel == pix_width as u16,
        w.ws_ypixel == pix_height as u16,
{
    WinSize {
        ws_row: #[verifier::truncate] (row_height as u16),
        ws_col: #[verifier::truncate] (col_width as u16),
        ws_xpixel: #[verifier::truncate] (pix_width as u16),
        ws_ypixel: #[verifier::truncate] (pix_height as u16),
    }
}

/// The window size a PTY request's geometry reduces to.
pub open spec fn spec_win_size(p: PtyRequest) -> WinSize {
    WinSize {
        ws_row: p.row_height as u16,
        ws_col: p.col_width as u16,
        ws_xpixel: p.pix_width as u16,
        ws_ypixel: p.pix_height as u16,
    }
}

impl PtyRequest {
    /// The geometry cached from this PTY request, truncated to the sixteen-bit
    /// fields of the terminal window size.
    pub fn win_size(&self) -> (w: WinSize)
        ensures
            w == spec_win_size(*self),
    {
        winsize_from_dimensions(self.col_width, self.row_height, self.pix_width, self.pix_height)
    }
}

} // verus!
