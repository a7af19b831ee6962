//! Trusted bindings to the outside primitives the runtime is built on:
//! tokio's bounded channels, one-shot signals and timer, the standard
//! reader/writer lock, and uuid's random identifiers.
//!
//! Every item here is believed, not proved; each doc comment names the
//! outside function relied on. Channel and signal endpoints are shared,
//! mutable state, so nothing useful can be promised about the values they
//! yield: the verified callers state what holds whatever comes back.

use vstd::prelude::*;

verus! {

#[verifier::external_type_specification]
#[verifier::external_body]
#[verifier::reject_recursive_types(T)]
pub struct ExMpscSender<T>(tokio::sync::mpsc::Sender<T>);

#[verifier::external_type_specification]
#[verifier::external_body]
#[verifier::reject_recursive_types(T)]
pub struct ExMpscReceiver<T>(tokio::sync::mpsc::Receiver<T>);

#[verifier::external_type_specification]
#[verifier::external_body]
#[verifier::reject_recursive_types(T)]
pub struct ExOneshotSender<T>(tokio::sync::oneshot::Sender<T>);

#[verifier::external_type_specification]
#[verifier::external_body]
#[verifier::reject_recursive_types(T)]
pub struct ExOneshotReceiver<T>(tokio::sync::oneshot::Receiver<T>);

#[verifier::external_type_specification]
#[verifier::external_body]
pub struct ExOneshotRecvError(tokio::sync::oneshot::error::RecvError);

#[verifier::external_type_specification]
#[verifier::external_body]
#[verifier::reject_recursive_types(T)]
pub struct ExRwLock<T: ?Sized>(std::sync::RwLock<T>);

#[verifier::external_type_specification]
#[verifier::external_body]
pub struct ExUuid(uuid::Uuid);

/// What a non-blocking poll of a mailbox found.
pub enum TryRecv<T> {
    /// A message was waiting.
    Msg(T),
    /// The mailbox is empty but senders are still alive.
    Empty,
    /// Every sender is gone: the channel is closed.
    Closed,
}

/// Relies on tokio::sync::mpsc::channel: creates a bounded channel pair.
/// tokio panics on a zero capacity and on one above its semaphore's permit
/// bound of `usize::MAX >> 3` (which is `usize::MAX / 8`: both are one less
/// than a power of two), so those inputs are left out.
#[verifier::external_body]
pub(crate) fn channel<T>(buffer: usize) -> (tokio::sync::mpsc::Sender<T>, tokio::sync::mpsc::Receiver<T>)
    requires
        1 <= buffer <= usize::MAX / 8,
{
    tokio::sync::mpsc::channel(buffer)
}

/// Relies on tokio::sync::mpsc::Receiver::try_recv: a non-blocking poll,
/// telling a waiting message, an empty mailbox, and a closed channel apart.
#[verifier::external_body]
pub(crate) fn try_recv<T>(rx: &mut tokio::sync::mpsc::Receiver<T>) -> TryRecv<T> {
    match rx.try_recv() {
        Ok(m) => TryRecv::Msg(m),
        Err(tokio::sync::mpsc::error::TryRecvError::Empty) => TryRecv::Empty,
        Err(tokio::sync::mpsc::error::TryRecvError::Disconnected) => TryRecv::Closed,
    }
}

/// Relies on tokio::sync::mpsc::Receiver::blocking_recv: blocks the calling
/// thread until a message arrives (`Some`) or the channel closes (`None`).
/// Must not be called from inside an asynchronous execution context.
#[verifier::external_body]
pub(crate) fn blocking_recv<T>(rx: &mut tokio::sync::mpsc::Receiver<T>) -> Option<T> {
    rx.blocking_recv()
}

/// Relies on tokio::sync::mpsc::Sender::try_send: a non-blocking send that
/// reports whether the message was accepted (a full or closed channel refuses it).
#[verifier::external_body]
pub(crate) fn try_send<T>(tx: &tokio::sync::mpsc::Sender<T>, m: T) -> bool {
    tx.try_send(m).is_ok()
}

/// Relies on Clone for tokio::sync::mpsc::Sender: another handle to the
/// same channel, indistinguishable from the original (tokio documents the
/// clone as sending to the same channel, and `same_channel` holds of the
/// pair), so the clone is modeled as the same abstract value.
#[verifier::external_body]
pub(crate) fn clone_sender<T>(tx: &tokio::sync::mpsc::Sender<T>) -> (r: tokio::sync::mpsc::Sender<T>)
    ensures
        r == *tx,
{
    tx.clone()
}

/// Relies on tokio::sync::oneshot::Sender::send: fires the single-use signal,
/// consuming the send half; reports false when the receiver is already gone.
#[verifier::external_body]
pub(crate) fn oneshot_send<T>(tx: tokio::sync::oneshot::Sender<T>, m: T) -> bool {
    tx.send(m).is_ok()
}

/// Relies on tokio::sync::oneshot::Receiver::blocking_recv: blocks the
/// calling thread until the signal fires (`Some`) or its sender is dropped
/// unfired (`None`), consuming the receive half. Must not be called from
/// inside an asynchronous execution context.
#[verifier::external_body]
pub(crate) fn oneshot_blocking_recv<T>(rx: tokio::sync::oneshot::Receiver<T>) -> Option<T> {
    rx.blocking_recv().ok()
}

/// Relies on std::sync::RwLock::read: takes the read lock and hands back a
/// clone of the guarded value. A poisoned lock — a writer panicked while
/// holding it — is read through via the documented `PoisonError::into_inner`,
/// so the call returns on every input.
#[verifier::external_body]
pub(crate) fn read_locked<T: Clone>(cell: &std::sync::Arc<std::sync::RwLock<T>>) -> T {
    cell.read().unwrap_or_else(|poisoned| poisoned.into_inner()).clone()
}

/// Relies on str's PartialEq: two string slices are equal exactly when
/// their character sequences are.
#[verifier::external_body]
pub(crate) fn str_eq(a: &str, b: &str) -> (r: bool)
    ensures
        r <==> a@ == b@,
{
    a == b
}

/// Relies on tokio::time::sleep, driven to completion on a throwaway
/// current-thread runtime: blocks the calling thread for at least `ms`
/// milliseconds. Must not be called from inside an asynchronous execution
/// context.
#[verifier::external_body]
pub(crate) fn sleep_millis(ms: u64) {
    let timer = tokio::runtime::Builder::new_current_thread().enable_time().build().unwrap();
    let guard = timer.enter();
    let pause = tokio::time::sleep(std::time::Duration::from_millis(ms));
    drop(guard);
    timer.block_on(pause);
}

/// Relies on uuid::Uuid::new_v4: a freshly drawn random identifier. The
/// result depends on a random source, so nothing is promised of it.
#[verifier::external_body]
pub(crate) fn fresh_uuid() -> uuid::Uuid {
    uuid::Uuid::new_v4()
}

} // verus!
