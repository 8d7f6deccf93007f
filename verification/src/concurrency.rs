//! The lock and the channels that the threads of the engine meet at. Everything here is
//! taken on trust from the `crossbeam` crate: the contracts below are not proved.

use crossbeam::channel::unbounded;
use crossbeam::channel::Receiver;
use crossbeam::channel::RecvTimeoutError;
use crossbeam::channel::Sender;
use crossbeam::sync::ShardedLock;
use crossbeam::sync::ShardedLockWriteGuard;
use std::time::Duration;
use vstd::prelude::*;

verus! {

/// `crossbeam::sync::ShardedLock`, a reader-writer lock. Nothing is known of what it guards.
#[verifier::external_type_specification]
#[verifier::external_body]
#[verifier::reject_recursive_types(T)]
pub struct ExShardedLock<T: ?Sized>(ShardedLock<T>);

/// `crossbeam::sync::ShardedLockWriteGuard`, which holds the lock for writing until it is dropped.
#[verifier::external_type_specification]
#[verifier::external_body]
#[verifier::reject_recursive_types(T)]
pub struct ExShardedLockWriteGuard<'a, T: ?Sized>(ShardedLockWriteGuard<'a, T>);

/// `crossbeam::channel::Sender`, the sending end of a channel.
#[verifier::external_type_specification]
#[verifier::external_body]
#[verifier::reject_recursive_types(T)]
pub struct ExSender<T>(Sender<T>);

/// `crossbeam::channel::Receiver`, the receiving end of a channel.
#[verifier::external_type_specification]
#[verifier::external_body]
#[verifier::reject_recursive_types(T)]
pub struct ExReceiver<T>(Receiver<T>);

/// A thread panicked while it held the lock for writing.
#[derive(Clone, Copy, Debug, PartialEq, Eq, Structural)]
pub struct Poisoned;

/// What waiting on a channel for a limited time ends in.
pub enum Received<T> {
    /// A message arrived.
    Message(T),
    /// The time ran out with the channel empty.
    TimedOut,
    /// The channel is empty and every sender is gone.
    Disconnected,
}

/// Calls `ShardedLock::write`: blocks until the lock is held for writing. The error of
/// a poisoned lock becomes `Poisoned`, and the lock is released again. Nothing is
/// claimed of the result. The calling thread must not hold the lock already.
#[verifier::external_body]
pub(crate) fn lock_for_writing<'a, T>(lock: &'a ShardedLock<T>) -> (locked: Result<
    ShardedLockWriteGuard<'a, T>,
    Poisoned,
>) {
    match lock.write() {
        Ok(guard) => Ok(guard),
        Err(_) => Err(Poisoned),
    }
}

/// Borrows what a write guard guards, through the guard's `deref_mut`. Nothing is
/// claimed of the value: other threads may have changed it since it was last seen.
#[verifier::external_body]
pub(crate) fn guarded<'a, 'b, T>(guard: &'b mut ShardedLockWriteGuard<'a, T>) -> (value: &'b mut T) {
    &mut **guard
}

/// Calls `crossbeam::channel::unbounded`: a new channel that holds any number of messages.
#[verifier::external_body]
pub(crate) fn open_channel<T>() -> (ends: (Sender<T>, Receiver<T>)) {
    unbounded()
}

/// Calls `Sender::send`. On an unbounded channel, such as `open_channel` makes, it does
/// not block; on a bounded one it blocks while the channel is full. Returns whether
/// the message was taken; it is not when every receiver is gone.
#[verifier::external_body]
pub(crate) fn send_message<T>(sender: &Sender<T>, message: T) -> (sent: bool) {
    match sender.send(message) {
        Ok(()) => true,
        Err(_) => false,
    }
}

/// Calls `Receiver::recv`: blocks until a message arrives, or returns `None` once the
/// channel is empty and every sender is gone.
#[verifier::external_body]
pub(crate) fn receive<T>(receiver: &Receiver<T>) -> (message: Option<T>) {
    match receiver.recv() {
        Ok(message) => Some(message),
        Err(_) => None,
    }
}

/// Calls `Receiver::recv_timeout` with a timeout of `millis` milliseconds. What comes
/// back depends on the other threads, so nothing is claimed of it.
#[verifier::external_body]
pub(crate) fn receive_within<T>(receiver: &Receiver<T>, millis: u64) -> (received: Received<T>) {
    match receiver.recv_timeout(Duration::from_millis(millis)) {
        Ok(message) => Received::Message(message),
        Err(RecvTimeoutError::Timeout) => Received::TimedOut,
        Err(RecvTimeoutError::Disconnected) => Received::Disconnected,
    }
}

} // verus!
