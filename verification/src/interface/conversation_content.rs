//! Signal emitters and list models of the `conversation_content` Qt objects.

use crate::signal::{after_raise, clear_qobject, load_qobject, new_qobject, queue_signal, raised, share_qobject, Emission};
use std::sync::atomic::AtomicUsize;
use std::sync::Arc;
use vstd::prelude::*;

verus! {

/// Marker for the Qt object behind a `ConversationContent` model; its address is what the emitters carry.
pub struct ConversationContentQObject;

/// The signals that a `ConversationContentEmitter` raises on its QObject.
#[derive(Clone, Copy, Debug, PartialEq, Eq)]
pub enum ConversationContentSignal {
    ConversationColorChanged,
    ConversationIdChanged,
    ExpirationPeriodChanged,
    MutedChanged,
    PairwiseChanged,
    PictureChanged,
    StatusChanged,
    TitleChanged,
    TryPoll,
}

/// Raises the signals of a `ConversationContent` object on its QObject. The QObject address is
/// shared by every clone of the emitter, so that clearing it (when the object is freed)
/// silences them all; raised signals wait in the outbox until they are delivered.
pub struct ConversationContentEmitter {
    qobject: Arc<AtomicUsize>,
    outbox: Vec<Emission<ConversationContentSignal>>,
}

impl View for ConversationContentEmitter {
    type V = Seq<Emission<ConversationContentSignal>>;

    closed spec fn view(&self) -> Seq<Emission<ConversationContentSignal>> {
        self.outbox@
    }
}

impl ConversationContentEmitter {
    /// An emitter for the QObject at address `qobject`, with nothing raised yet.
    pub fn new(qobject: usize) -> (emitter: ConversationContentEmitter)
        ensures
            emitter@ == Seq::<Emission<ConversationContentSignal>>::empty(),
    {
        ConversationContentEmitter { qobject: new_qobject(qobject), outbox: Vec::new() }
    }

    /// Clones the emitter: the clone shares the QObject address and starts with an
    /// empty outbox.
    pub fn clone(&mut self) -> (cloned: ConversationContentEmitter)
        ensures
            cloned@ == Seq::<Emission<ConversationContentSignal>>::empty(),
            final(self)@ == old(self)@,
    {
        ConversationContentEmitter { qobject: share_qobject(&self.qobject), outbox: Vec::new() }
    }

    /// Marks the QObject as destroyed; from then on no clone raises anything.
    pub fn clear(&self) {
        clear_qobject(&self.qobject);
    }

    /// Hands out the raised signals, oldest first, and empties the outbox.
    pub fn take_pending(&mut self) -> (pending: Vec<Emission<ConversationContentSignal>>)
        ensures
            pending@ == old(self)@,
            final(self)@ == Seq::<Emission<ConversationContentSignal>>::empty(),
    {
        let mut pending: Vec<Emission<ConversationContentSignal>> = Vec::new();
        std::mem::swap(&mut pending, &mut self.outbox);
        pending
    }

    /// Raises `ConversationColorChanged`, unless the QObject is gone.
    pub fn conversation_color_changed(&mut self)
        ensures
            raised(old(self)@, final(self)@, ConversationContentSignal::ConversationColorChanged),
    {
        let qobject = load_qobject(&self.qobject);
        queue_signal(&mut self.outbox, qobject, ConversationContentSignal::ConversationColorChanged);
        assert(self.outbox@ == after_raise(old(self).outbox@, qobject, ConversationContentSignal::ConversationColorChanged));
    }

    /// Raises `ConversationIdChanged`, unless the QObject is gone.
    pub fn conversation_id_changed(&mut self)
        ensures
            raised(old(self)@, final(self)@, ConversationContentSignal::ConversationIdChanged),
    {
        let qobject = load_qobject(&self.qobject);
        queue_signal(&mut self.outbox, qobject, ConversationContentSignal::ConversationIdChanged);
        assert(self.outbox@ == after_raise(old(self).outbox@, qobject, ConversationContentSignal::ConversationIdChanged));
    }

    /// Raises `ExpirationPeriodChanged`, unless the QObject is gone.
    pub fn expiration_period_changed(&mut self)
        ensures
            raised(old(self)@, final(self)@, ConversationContentSignal::ExpirationPeriodChanged),
    {
        let qobject = load_qobject(&self.qobject);
        queue_signal(&mut self.outbox, qobject, ConversationContentSignal::ExpirationPeriodChanged);
        assert(self.outbox@ == after_raise(old(self).outbox@, qobject, ConversationContentSignal::ExpirationPeriodChanged));
    }

    /// Raises `MutedChanged`, unless the QObject is gone.
    pub fn muted_changed(&mut self)
        ensures
            raised(old(self)@, final(self)@, ConversationContentSignal::MutedChanged),
    {
        let qobject = load_qobject(&self.qobject);
        queue_signal(&mut self.outbox, qobject, ConversationContentSignal::MutedChanged);
        assert(self.outbox@ == after_raise(old(self).outbox@, qobject, ConversationContentSignal::MutedChanged));
    }

    /// Raises `PairwiseChanged`, unless the QObject is gone.
    pub fn pairwise_changed(&mut self)
        ensures
            raised(old(self)@, final(self)@, ConversationContentSignal::PairwiseChanged),
    {
        let qobject = load_qobject(&self.qobject);
        queue_signal(&mut self.outbox, qobject, ConversationContentSignal::PairwiseChanged);
        assert(self.outbox@ == after_raise(old(self).outbox@, qobject, ConversationContentSignal::PairwiseChanged));
    }

    /// Raises `PictureChanged`, unless the QObject is gone.
    pub fn picture_changed(&mut self)
        ensures
            raised(old(self)@, final(self)@, ConversationContentSignal::PictureChanged),
    {
        let qobject = load_qobject(&self.qobject);
        queue_signal(&mut self.outbox, qobject, ConversationContentSignal::PictureChanged);
        assert(self.outbox@ == after_raise(old(self).outbox@, qobject, ConversationContentSignal::PictureChanged));
    }

    /// Raises `StatusChanged`, unless the QObject is gone.
    pub fn status_changed(&mut self)
        ensures
            raised(old(self)@, final(self)@, ConversationContentSignal::StatusChanged),
    {
        let qobject = load_qobject(&self.qobject);
        queue_signal(&mut self.outbox, qobject, ConversationContentSignal::StatusChanged);
        assert(self.outbox@ == after_raise(old(self).outbox@, qobject, ConversationContentSignal::StatusChanged));
    }

    /// Raises `TitleChanged`, unless the QObject is gone.
    pub fn title_changed(&mut self)
        ensures
            raised(old(self)@, final(self)@, ConversationContentSignal::TitleChanged),
    {
        let qobject = load_qobject(&self.qobject);
        queue_signal(&mut self.outbox, qobject, ConversationContentSignal::TitleChanged);
        assert(self.outbox@ == after_raise(old(self).outbox@, qobject, ConversationContentSignal::TitleChanged));
    }

    /// Raises `TryPoll`, unless the QObject is gone.
    pub fn try_poll(&mut self)
        ensures
            raised(old(self)@, final(self)@, ConversationContentSignal::TryPoll),
    {
        let qobject = load_qobject(&self.qobject);
        queue_signal(&mut self.outbox, qobject, ConversationContentSignal::TryPoll);
        assert(self.outbox@ == after_raise(old(self).outbox@, qobject, ConversationContentSignal::TryPoll));
    }

}

} // verus!
