//! The playing-state flag that a voice's controller and its envelopes share.

use crate::envelope::PlayingState;
use std::sync::atomic::AtomicU8;
use std::sync::atomic::Ordering;
use std::sync::Arc;
use vstd::prelude::*;

verus! {

/// A handle on one shared playing-state flag. Every clone refers to the same flag.
///
/// The flag lives in an atomic cell that several threads read and write, so nothing
/// about its content can be promised across calls: what a thread does with a value it
/// has read is stated by `PlayingState::after_request` and by the envelope's `step`.
#[derive(Clone, Debug)]
pub struct PlayingFlag {
    cell: Arc<AtomicU8>,
}

impl PlayingFlag {
    /// A new flag, set to `Playing`.
    pub fn new() -> PlayingFlag {
        PlayingFlag { cell: Arc::new(AtomicU8::new(PlayingState::Playing.encode())) }
    }

    /// Another handle on the same flag. A handle's value is the flag it refers to, not
    /// what the flag holds, so the two handles are equal.
    pub fn share(&self) -> (shared: PlayingFlag)
        ensures
            shared == *self,
    {
        PlayingFlag { cell: self.cell.clone() }
    }

    /// The state the flag holds at this moment.
    pub fn read(&self) -> PlayingState {
        PlayingState::decode(self.cell.load(Ordering::SeqCst))
    }

    /// The envelope's terminal write: the flag becomes `Stopped`.
    pub fn mark_stopped(&self) {
        self.cell.store(PlayingState::Stopped.encode(), Ordering::SeqCst);
    }

    /// A controller's write: the flag becomes `requested`, unless `Stopped` is what is
    /// asked for, or the request is to stop and the flag has reached `Stopped`.
    ///
    /// The new state is `PlayingState::after_request` of the state that was read. Should
    /// the envelope write `Stopped` in between, that write stands.
    pub fn request(&self, requested: PlayingState) {
        let code: u8 = self.cell.load(Ordering::SeqCst);
        let current = PlayingState::decode(code);
        let wanted = current.requested(requested);
        if wanted != current {
            let _ = self.cell.compare_exchange(
                code,
                wanted.encode(),
                Ordering::SeqCst,
                Ordering::SeqCst,
            );
        }
    }
}

} // verus!
