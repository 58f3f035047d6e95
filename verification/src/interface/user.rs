//! Signal emitters and list models of the `user` Qt objects.

use crate::signal::{after_raise, clear_qobject, load_qobject, new_qobject, queue_signal, raised, share_qobject, Emission};
use std::sync::atomic::AtomicUsize;
use std::sync::Arc;
use vstd::prelude::*;

verus! {

/// Marker for the Qt object behind a `User` model; its address is what the emitters carry.
pub struct UserQObject;

/// The signals that a `UserEmitter` raises on its QObject.
#[derive(Clone, Copy, Debug, PartialEq, Eq)]
pub enum UserSignal {
    NameChanged,
    PairwiseConversationIdChanged,
    ProfilePictureChanged,
    UserColorChanged,
    UserIdChanged,
}

/// Raises the signals of a `User` object on its QObject. The QObject address is
/// shared by every clone of the emitter, so that clearing it (when the object is freed)
/// silences them all; raised signals wait in the outbox until they are delivered.
pub struct UserEmitter {
    qobject: Arc<AtomicUsize>,
    outbox: Vec<Emission<UserSignal>>,
}

impl View for UserEmitter {
    type V = Seq<Emission<UserSignal>>;

    closed spec fn view(&self) -> Seq<Emission<UserSignal>> {
        self.outbox@
    }
}

impl UserEmitter {
    /// An emitter for the QObject at address `qobject`, with nothing raised yet.
    pub fn new(qobject: usize) -> (emitter: UserEmitter)
        ensures
            emitter@ == Seq::<Emission<UserSignal>>::empty(),
    {
        UserEmitter { qobject: new_qobject(qobject), outbox: Vec::new() }
    }

    /// Clones the emitter: the clone shares the QObject address and starts with an
    /// empty outbox.
    pub fn clone(&mut self) -> (cloned: UserEmitter)
        ensures
            cloned@ == Seq::<Emission<UserSignal>>::empty(),
            final(self)@ == old(self)@,
    {
        UserEmitter { qobject: share_qobject(&self.qobject), outbox: Vec::new() }
    }

    /// Marks the QObject as destroyed; from then on no clone raises anything.
    pub fn clear(&self) {
        clear_qobject(&self.qobject);
    }

    /// Hands out the raised signals, oldest first, and empties the outbox.
    pub fn take_pending(&mut self) -> (pending: Vec<Emission<UserSignal>>)
        ensures
            pending@ == old(self)@,
            final(self)@ == Seq::<Emission<UserSignal>>::empty(),
    {
        let mut pending: Vec<Emission<UserSignal>> = Vec::new();
        std::mem::swap(&mut pending, &mut self.outbox);
        pending
    }

    /// Raises `NameChanged`, unless the QObject is gone.
    pub fn name_changed(&mut self)
        ensures
            raised(old(self)@, final(self)@, UserSignal::NameChanged),
    {
        let qobject = load_qobject(&self.qobject);
        queue_signal(&mut self.outbox, qobject, UserSignal::NameChanged);
        assert(self.outbox@ == after_raise(old(self).outbox@, qobject, UserSignal::NameChanged));
    }

    /// Raises `PairwiseConversationIdChanged`, unless the QObject is gone.
    pub fn pairwise_conversation_id_changed(&mut self)
        ensures
            raised(old(self)@, final(self)@, UserSignal::PairwiseConversationIdChanged),
    {
        let qobject = load_qobject(&self.qobject);
        queue_signal(&mut self.outbox, qobject, UserSignal::PairwiseConversationIdChanged);
        assert(self.outbox@ == after_raise(old(self).outbox@, qobject, UserSignal::PairwiseConversationIdChanged));
    }

    /// Raises `ProfilePictureChanged`, unless the QObject is gone.
    pub fn profile_picture_changed(&mut self)
        ensures
            raised(old(self)@, final(self)@, UserSignal::ProfilePictureChanged),
    {
        let qobject = load_qobject(&self.qobject);
        queue_signal(&mut self.outbox, qobject, UserSignal::ProfilePictureChanged);
        assert(self.outbox@ == after_raise(old(self).outbox@, qobject, UserSignal::ProfilePictureChanged));
    }

    /// Raises `UserColorChanged`, unless the QObject is gone.
    pub fn user_color_changed(&mut self)
        ensures
            raised(old(self)@, final(self)@, UserSignal::UserColorChanged),
    {
        let qobject = load_qobject(&self.qobject);
        queue_signal(&mut self.outbox, qobject, UserSignal::UserColorChanged);
        assert(self.outbox@ == after_raise(old(self).outbox@, qobject, UserSignal::UserColorChanged));
    }

    /// Raises `UserIdChanged`, unless the QObject is gone.
    pub fn user_id_changed(&mut self)
        ensures
            raised(old(self)@, final(self)@, UserSignal::UserIdChanged),
    {
        let qobject = load_qobject(&self.qobject);
        queue_signal(&mut self.outbox, qobject, UserSignal::UserIdChanged);
        assert(self.outbox@ == after_raise(old(self).outbox@, qobject, UserSignal::UserIdChanged));
    }

}

} // verus!
