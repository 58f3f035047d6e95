//! Signal emitters and list models of the `notifications` Qt objects.

use crate::signal::{after_raise, clear_qobject, load_qobject, new_qobject, queue_signal, raised, share_qobject, Emission};
use std::sync::atomic::AtomicUsize;
use std::sync::Arc;
use vstd::prelude::*;

verus! {

/// Marker for the Qt object behind a `Notifications` model; its address is what the emitters carry.
pub struct NotificationsQObject;

/// The signals that a `NotificationsEmitter` raises on its QObject.
#[derive(Clone, Copy, Debug, PartialEq, Eq)]
pub enum NotificationsSignal {
    Notify,
}

/// Raises the signals of a `Notifications` object on its QObject. The QObject address is
/// shared by every clone of the emitter, so that clearing it (when the object is freed)
/// silences them all; raised signals wait in the outbox until they are delivered.
pub struct NotificationsEmitter {
    qobject: Arc<AtomicUsize>,
    outbox: Vec<Emission<NotificationsSignal>>,
}

impl View for NotificationsEmitter {
    type V = Seq<Emission<NotificationsSignal>>;

    closed spec fn view(&self) -> Seq<Emission<NotificationsSignal>> {
        self.outbox@
    }
}

impl NotificationsEmitter {
    /// An emitter for the QObject at address `qobject`, with nothing raised yet.
    pub fn new(qobject: usize) -> (emitter: NotificationsEmitter)
        ensures
            emitter@ == Seq::<Emission<NotificationsSignal>>::empty(),
    {
        NotificationsEmitter { qobject: new_qobject(qobject), outbox: Vec::new() }
    }

    /// Clones the emitter: the clone shares the QObject address and starts with an
    /// empty outbox.
    pub fn clone(&mut self) -> (cloned: NotificationsEmitter)
        ensures
            cloned@ == Seq::<Emission<NotificationsSignal>>::empty(),
            final(self)@ == old(self)@,
    {
        NotificationsEmitter { qobject: share_qobject(&self.qobject), outbox: Vec::new() }
    }

    /// Marks the QObject as destroyed; from then on no clone raises anything.
    pub fn clear(&self) {
        clear_qobject(&self.qobject);
    }

    /// Hands out the raised signals, oldest first, and empties the outbox.
    pub fn take_pending(&mut self) -> (pending: Vec<Emission<NotificationsSignal>>)
        ensures
            pending@ == old(self)@,
            final(self)@ == Seq::<Emission<NotificationsSignal>>::empty(),
    {
        let mut pending: Vec<Emission<NotificationsSignal>> = Vec::new();
        std::mem::swap(&mut pending, &mut self.outbox);
        pending
    }

    /// Raises `Notify`, unless the QObject is gone.
    pub fn notify(&mut self)
        ensures
            raised(old(self)@, final(self)@, NotificationsSignal::Notify),
    {
        let qobject = load_qobject(&self.qobject);
        queue_signal(&mut self.outbox, qobject, NotificationsSignal::Notify);
        assert(self.outbox@ == after_raise(old(self).outbox@, qobject, NotificationsSignal::Notify));
    }

}

} // verus!
