//! Signal emitters and list models of the `errors` Qt objects.

use crate::signal::{after_raise, clear_qobject, load_qobject, new_qobject, queue_signal, raised, share_qobject, Emission};
use std::sync::atomic::AtomicUsize;
use std::sync::Arc;
use vstd::prelude::*;

verus! {

/// Marker for the Qt object behind a `Errors` model; its address is what the emitters carry.
pub struct ErrorsQObject;

/// The signals that a `ErrorsEmitter` raises on its QObject.
#[derive(Clone, Copy, Debug, PartialEq, Eq)]
pub enum ErrorsSignal {
    TryPollChanged,
}

/// Raises the signals of a `Errors` object on its QObject. The QObject address is
/// shared by every clone of the emitter, so that clearing it (when the object is freed)
/// silences them all; raised signals wait in the outbox until they are delivered.
pub struct ErrorsEmitter {
    qobject: Arc<AtomicUsize>,
    outbox: Vec<Emission<ErrorsSignal>>,
}

impl View for ErrorsEmitter {
    type V = Seq<Emission<ErrorsSignal>>;

    closed spec fn view(&self) -> Seq<Emission<ErrorsSignal>> {
        self.outbox@
    }
}

impl ErrorsEmitter {
    /// An emitter for the QObject at address `qobject`, with nothing raised yet.
    pub fn new(qobject: usize) -> (emitter: ErrorsEmitter)
        ensures
            emitter@ == Seq::<Emission<ErrorsSignal>>::empty(),
    {
        ErrorsEmitter { qobject: new_qobject(qobject), outbox: Vec::new() }
    }

    /// Clones the emitter: the clone shares the QObject address and starts with an
    /// empty outbox.
    pub fn clone(&mut self) -> (cloned: ErrorsEmitter)
        ensures
            cloned@ == Seq::<Emission<ErrorsSignal>>::empty(),
            final(self)@ == old(self)@,
    {
        ErrorsEmitter { qobject: share_qobject(&self.qobject), outbox: Vec::new() }
    }

    /// Marks the QObject as destroyed; from then on no clone raises anything.
    pub fn clear(&self) {
        clear_qobject(&self.qobject);
    }

    /// Hands out the raised signals, oldest first, and empties the outbox.
    pub fn take_pending(&mut self) -> (pending: Vec<Emission<ErrorsSignal>>)
        ensures
            pending@ == old(self)@,
            final(self)@ == Seq::<Emission<ErrorsSignal>>::empty(),
    {
        let mut pending: Vec<Emission<ErrorsSignal>> = Vec::new();
        std::mem::swap(&mut pending, &mut self.outbox);
        pending
    }

    /// Raises `TryPollChanged`, unless the QObject is gone.
    pub fn try_poll_changed(&mut self)
        ensures
            raised(old(self)@, final(self)@, ErrorsSignal::TryPollChanged),
    {
        let qobject = load_qobject(&self.qobject);
        queue_signal(&mut self.outbox, qobject, ErrorsSignal::TryPollChanged);
        assert(self.outbox@ == after_raise(old(self).outbox@, qobject, ErrorsSignal::TryPollChanged));
    }

}

} // verus!
