//! How voices reach the registry: the request, the thread that serves it, and the
//! device through which callers ask.

use crate::concurrency::guarded;
use crate::concurrency::lock_for_writing;
use crate::concurrency::open_channel;
use crate::concurrency::receive;
use crate::concurrency::receive_within;
use crate::concurrency::send_message;
use crate::concurrency::Received;
use crate::manager::reported;
use crate::manager::unfinished;
use crate::manager::Manager;
use crate::manager::PlayingHandle;
use crate::manager::SoundView;
use crate::sampler::Sampler;
use crossbeam::channel::Receiver;
use crossbeam::channel::Sender;
use crossbeam::sync::ShardedLock;
use std::sync::Arc;
use vstd::prelude::*;

verus! {

/// How long the dispatch thread waits for a request before it looks after the registry.
pub const IDLE_TIMEOUT_MILLIS: u64 = 10;

/// A request to the dispatch thread.
pub enum ManagerMessage<S> {
    /// Register `sampler` as a new voice and send its handle to `callback`.
    Append { sampler: S, callback: Sender<PlayingHandle> },
}

/// The registry as the threads share it.
pub type ManagerHandle<S> = Arc<ShardedLock<Manager<S>>>;

/// Why a round of the dispatch thread served no request.
#[derive(Clone, Copy, Debug, PartialEq, Eq, Structural)]
pub enum DispatchError {
    /// No request arrived in time. The registry was pruned; the thread goes on.
    Timeout,
    /// Every sender is gone: no request will ever arrive.
    Disconnected,
    /// The registry's lock is poisoned.
    Poisoned,
}

impl DispatchError {
    /// Whether the dispatch thread is to go on after this error.
    pub open spec fn is_idle(self) -> bool {
        self is Timeout
    }

    /// Reports `is_idle`: a timeout is the idle tick of the loop, anything else ends it.
    pub fn goes_on(self) -> (goes_on: bool)
        ensures
            goes_on == self.is_idle(),
    {
        match self {
            DispatchError::Timeout => true,
            _ => false,
        }
    }
}

/// What a round of the dispatch thread comes to, once the registry has been dealt with.
pub struct Served {
    /// The handle of a newly registered voice and the channel on which its requester
    /// waits for it.
    pub reply: Option<(Sender<PlayingHandle>, PlayingHandle)>,
    /// What the round returns.
    pub outcome: Result<(), DispatchError>,
}

/// Deals with what the dispatch thread received, on the registry it has locked. An
/// append request registers its producer as the newest voice and is answered with the
/// voice's handle. A timeout is the idle tick: the finished voices are dropped. A
/// closed channel leaves the registry alone.
pub fn serve<S: Sampler>(manager: &mut Manager<S>, received: Received<ManagerMessage<S>>) -> (served:
    Served)
    ensures
        match received {
            Received::Message(ManagerMessage::Append { sampler, callback }) => {
                &&& final(manager)@.last_id == old(manager)@.last_id.wrapping_add(1)
                &&& final(manager)@.sounds == old(manager)@.sounds.push(
                    SoundView { id: final(manager)@.last_id, sampler },
                )
                &&& served.reply matches Some((to, handle)) && to == callback && handle.id()
                    == final(manager)@.last_id
                &&& served.outcome == Ok::<(), DispatchError>(())
            },
            Received::TimedOut => {
                &&& exists|finished: Seq<bool>|
                    {
                        &&& #[trigger] reported(old(manager)@.sounds, finished)
                        &&& final(manager)@.sounds == unfinished(old(manager)@.sounds, finished)
                    }
                &&& final(manager)@.last_id == old(manager)@.last_id
                &&& served.reply is None
                &&& served.outcome == Err::<(), DispatchError>(DispatchError::Timeout)
            },
            Received::Disconnected => {
                &&& final(manager)@ == old(manager)@
                &&& served.reply is None
                &&& served.outcome == Err::<(), DispatchError>(DispatchError::Disconnected)
            },
        },
{
    match received {
        Received::Message(ManagerMessage::Append { sampler, callback }) => {
            let handle = manager.register(sampler);
            Served { reply: Some((callback, handle)), outcome: Ok(()) }
        },
        Received::TimedOut => {
            manager.prune();
            Served { reply: None, outcome: Err(DispatchError::Timeout) }
        },
        Received::Disconnected => Served { reply: None, outcome: Err(DispatchError::Disconnected) },
    }
}

/// How a round ends that does not get to the registry. A closed channel ends it with
/// `Disconnected` before the registry is asked for. A poisoned lock ends it with
/// `Poisoned`, and what was received is dropped. Otherwise nothing stands in the way
/// of `serve`, which is `Ok`.
pub open spec fn unserved<S>(received: Received<ManagerMessage<S>>, poisoned: bool) -> Result<
    (),
    DispatchError,
> {
    if received is Disconnected {
        Err(DispatchError::Disconnected)
    } else if poisoned {
        Err(DispatchError::Poisoned)
    } else {
        Ok(())
    }
}

/// Decides `unserved` from what was received and whether the registry's lock is poisoned.
pub fn end_unserved<S>(received: &Received<ManagerMessage<S>>, poisoned: bool) -> (ended: Result<
    (),
    DispatchError,
>)
    ensures
        ended == unserved(*received, poisoned),
{
    match received {
        Received::Disconnected => Err(DispatchError::Disconnected),
        _ => if poisoned {
            Err(DispatchError::Poisoned)
        } else {
            Ok(())
        },
    }
}

/// The dispatch thread: the only writer that adds voices to the registry.
#[verifier::reject_recursive_types(S)]
pub struct ManagerThread<S> {
    receiver: Receiver<ManagerMessage<S>>,
    manager: ManagerHandle<S>,
}

impl<S: Sampler> ManagerThread<S> {
    /// The registry that the thread writes to.
    pub closed spec fn manager(&self) -> ManagerHandle<S> {
        self.manager
    }

    /// The channel that the thread's requests arrive on.
    pub closed spec fn receiver(&self) -> Receiver<ManagerMessage<S>> {
        self.receiver
    }

    /// The dispatch thread for `manager`, served from `receiver`.
    pub fn new(manager: ManagerHandle<S>, receiver: Receiver<ManagerMessage<S>>) -> (thread:
        ManagerThread<S>)
        ensures
            thread.manager() == manager,
            thread.receiver() == receiver,
    {
        ManagerThread { manager, receiver }
    }

    /// One round of the dispatch loop. Waits up to `IDLE_TIMEOUT_MILLIS` for a request.
    /// How the round ends without the registry is `end_unserved`: on a closed channel
    /// before the lock is asked for, on a poisoned lock after. Otherwise the registry
    /// is locked and `serve` deals with what was received; the lock is released before
    /// the handle of a new voice is sent back, and a requester that has gone away is
    /// ignored. The thread goes on with the same registry and the same channel.
    ///
    /// The calling thread must not hold the registry's lock.
    pub fn handle_incoming_messages(&mut self) -> (served: Result<(), DispatchError>)
        ensures
            final(self).manager() == old(self).manager(),
            final(self).receiver() == old(self).receiver(),
    {
        let received = receive_within(&self.receiver, IDLE_TIMEOUT_MILLIS);
        let closed = end_unserved(&received, false);
        if closed.is_err() {
            return closed;
        }
        let served = match lock_for_writing(&*self.manager) {
            Ok(mut guard) => serve(guarded(&mut guard), received),
            Err(_) => {
                return end_unserved(&received, true);
            },
        };
        if let Some((callback, handle)) = served.reply {
            let _ = send_message(&callback, handle);
        }
        served.outcome
    }
}

/// Why a voice could not be registered.
#[derive(Clone, Copy, Debug, PartialEq, Eq, Structural)]
pub enum PlayError {
    /// The dispatch thread is gone: the request could not be sent.
    ManagerGone,
    /// The request was sent, but the reply channel closed before a handle arrived.
    ReplyClosed,
}

/// What a request for a voice ends in: without a dispatch thread to send it to it
/// fails with `ManagerGone`; once sent, it succeeds with the handle that came back, and
/// fails with `ReplyClosed` if none did.
pub open spec fn play_outcome(sent: bool, reply: Option<PlayingHandle>) -> Result<
    PlayingHandle,
    PlayError,
> {
    if !sent {
        Err(PlayError::ManagerGone)
    } else {
        match reply {
            Some(handle) => Ok(handle),
            None => Err(PlayError::ReplyClosed),
        }
    }
}

/// Decides `play_outcome` from whether the request was sent and what came back.
pub fn decide_play(sent: bool, reply: Option<PlayingHandle>) -> (played: Result<
    PlayingHandle,
    PlayError,
>)
    ensures
        played == play_outcome(sent, reply),
{
    if !sent {
        Err(PlayError::ManagerGone)
    } else {
        match reply {
            Some(handle) => Ok(handle),
            None => Err(PlayError::ReplyClosed),
        }
    }
}

/// The output device as callers see it: the sending end of the dispatch thread's channel.
#[verifier::reject_recursive_types(S)]
pub struct Device<S> {
    sender: Sender<ManagerMessage<S>>,
}

impl<S> Device<S> {
    /// The channel that the device's requests are sent on.
    pub closed spec fn sender(&self) -> Sender<ManagerMessage<S>> {
        self.sender
    }

    /// A device whose requests go to `sender`. On a bounded channel `play` also waits
    /// while the channel is full.
    pub fn new(sender: Sender<ManagerMessage<S>>) -> (device: Device<S>)
        ensures
            device.sender() == sender,
    {
        Device { sender }
    }

    /// Registers `source` as a new voice: sends an append request and, if it could be
    /// sent, blocks until the dispatch thread has answered. What is returned is
    /// `decide_play` of how that went.
    pub fn play(&self, source: S) -> (played: Result<PlayingHandle, PlayError>) {
        let (callback, reply) = open_channel::<PlayingHandle>();
        let sent = send_message(&self.sender, ManagerMessage::Append { sampler: source, callback });
        let answer = if sent {
            receive(&reply)
        } else {
            None
        };
        decide_play(sent, answer)
    }
}

} // verus!
