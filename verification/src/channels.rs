//! The trusted boundary to the in-process plumbing the bridge is built on:
//! the unbounded channels that carry data and signals from the transport
//! side to the local client thread, the unbounded channel that carries
//! output back, and the mutex-guarded session-name cell shared with the
//! local engine. Everything here is a declaration or a thin wrapper around
//! one outside call; nothing of the library's own logic stands here.
//!
//! The values these channels and the cell hold are set by other threads, so
//! no wrapper promises anything about what is received or read: the callers'
//! contracts hold for every outcome.

use vstd::prelude::*;
use std::sync::Arc;
use std::sync::Mutex;
use interprocess::local_socket::traits::Stream as StreamTrait;
use interprocess::local_socket::GenericFilePath;
use interprocess::local_socket::Stream;
use interprocess::local_socket::ToFsName;

verus! {

#[verifier::external_type_specification]
#[verifier::external_body]
#[verifier::reject_recursive_types(T)]
pub struct ExSender<T>(crossbeam_channel::Sender<T>);

#[verifier::external_type_specification]
#[verifier::external_body]
#[verifier::reject_recursive_types(T)]
pub struct ExReceiver<T>(crossbeam_channel::Receiver<T>);

#[verifier::external_type_specification]
#[verifier::external_body]
#[verifier::reject_recursive_types(T)]
pub struct ExUnboundedSender<T>(tokio::sync::mpsc::UnboundedSender<T>);

#[verifier::external_type_specification]
#[verifier::external_body]
pub struct ExLocalSocketStream(Stream);

#[verifier::external_type_specification]
#[verifier::external_body]
#[verifier::reject_recursive_types(T)]
pub struct ExMutex<T: ?Sized>(Mutex<T>);

/// Relies on crossbeam_channel::unbounded: creates a channel of unbounded
/// capacity; the returned sender and receiver are connected.
#[verifier::external_body]
pub fn channel_unbounded<T>() -> (crossbeam_channel::Sender<T>, crossbeam_channel::Receiver<T>) {
    crossbeam_channel::unbounded()
}

/// Relies on crossbeam_channel::Sender::send: on an unbounded channel the
/// value is queued without blocking; sending fails only when every receiver
/// is gone.
#[verifier::external_body]
pub fn channel_send<T>(s: &crossbeam_channel::Sender<T>, t: T) -> bool {
    s.send(t).is_ok()
}

/// Relies on crossbeam_channel::Receiver::recv: blocks until a value is
/// available and returns it, or returns nothing once the channel is
/// disconnected and drained.
#[verifier::external_body]
pub fn channel_recv<T>(r: &crossbeam_channel::Receiver<T>) -> Option<T> {
    r.recv().ok()
}

/// Relies on crossbeam_channel::Receiver::is_empty: whether the channel held
/// no message at the moment of the call; other threads may change that at
/// any time.
#[verifier::external_body]
pub fn channel_is_empty<T>(r: &crossbeam_channel::Receiver<T>) -> bool {
    r.is_empty()
}

/// Relies on crossbeam_channel::Receiver::clone: another handle on the same
/// channel.
#[verifier::external_body]
pub fn channel_receiver_clone<T>(r: &crossbeam_channel::Receiver<T>) -> crossbeam_channel::Receiver<
    T,
> {
    r.clone()
}

/// Relies on crossbeam_channel::after: a receiver that delivers one message
/// once the given number of milliseconds has passed; receiving from it
/// pauses the calling thread for that long.
#[verifier::external_body]
pub fn pause_millis(millis: u64) {
    let _ = crossbeam_channel::after(std::time::Duration::from_millis(millis)).recv();
}

/// Relies on tokio::sync::mpsc::UnboundedSender::clone: another handle on
/// the same channel.
#[verifier::external_body]
pub fn out_channel_sender_clone<T>(
    s: &tokio::sync::mpsc::UnboundedSender<T>,
) -> tokio::sync::mpsc::UnboundedSender<T> {
    s.clone()
}

/// Relies on interprocess::local_socket::Stream::connect: one attempt to
/// connect to the local engine's socket at the given filesystem path. The
/// engine's acceptor may not be listening yet, in which case the attempt
/// fails and nothing is returned.
#[verifier::external_body]
pub fn try_connect_to_engine(path: &str) -> Option<Stream> {
    let name = path.to_fs_name::<GenericFilePath>().ok()?;
    Stream::connect(name).ok()
}

/// Relies on std::sync::Mutex::new: a fresh cell holding no session name.
#[verifier::external_body]
pub fn name_cell_new() -> Arc<Mutex<Option<String>>> {
    Arc::new(Mutex::new(None))
}

/// Relies on std::sync::Mutex::lock: the session name currently in the
/// shared cell. Another thread may replace it at any time, so nothing is
/// promised of the value. Panics only if a thread panicked while holding
/// the lock.
#[verifier::external_body]
pub fn name_cell_read(cell: &Arc<Mutex<Option<String>>>) -> Option<String> {
    cell.lock().unwrap().clone()
}

/// Relies on std::sync::Mutex::lock: replaces the session name in the
/// shared cell. Panics only if a thread panicked while holding the lock.
#[verifier::external_body]
pub fn name_cell_write(cell: &Arc<Mutex<Option<String>>>, value: Option<String>) {
    *cell.lock().unwrap() = value;
}

} // verus!
