//! Signal emitters and list models of the `messages` Qt objects.

use crate::signal::{after_call, after_raise, clear_qobject, load_qobject, new_qobject, queue_call, queue_signal, raised, share_qobject, Emission, ModelCall};
use std::sync::atomic::AtomicUsize;
use std::sync::Arc;
use vstd::prelude::*;

verus! {

/// Marker for the Qt object behind a `Messages` model; its address is what the emitters carry.
pub struct MessagesQObject;

/// The signals that a `MessagesEmitter` raises on its QObject.
#[derive(Clone, Copy, Debug, PartialEq, Eq)]
pub enum MessagesSignal {
    IsEmptyChanged,
    LastAuthorChanged,
    LastBodyChanged,
    LastStatusChanged,
    LastTimeChanged,
    SearchActiveChanged,
    SearchIndexChanged,
    SearchNumMatchesChanged,
    SearchPatternChanged,
    SearchRegexChanged,
    NewDataReady,
}

/// Raises the signals of a `Messages` object on its QObject. The QObject address is
/// shared by every clone of the emitter, so that clearing it (when the object is freed)
/// silences them all; raised signals wait in the outbox until they are delivered.
pub struct MessagesEmitter {
    qobject: Arc<AtomicUsize>,
    outbox: Vec<Emission<MessagesSignal>>,
}

impl View for MessagesEmitter {
    type V = Seq<Emission<MessagesSignal>>;

    closed spec fn view(&self) -> Seq<Emission<MessagesSignal>> {
        self.outbox@
    }
}

impl MessagesEmitter {
    /// An emitter for the QObject at address `qobject`, with nothing raised yet.
    pub fn new(qobject: usize) -> (emitter: MessagesEmitter)
        ensures
            emitter@ == Seq::<Emission<MessagesSignal>>::empty(),
    {
        MessagesEmitter { qobject: new_qobject(qobject), outbox: Vec::new() }
    }

    /// Clones the emitter: the clone shares the QObject address and starts with an
    /// empty outbox.
    pub fn clone(&mut self) -> (cloned: MessagesEmitter)
        ensures
            cloned@ == Seq::<Emission<MessagesSignal>>::empty(),
            final(self)@ == old(self)@,
    {
        MessagesEmitter { qobject: share_qobject(&self.qobject), outbox: Vec::new() }
    }

    /// Marks the QObject as destroyed; from then on no clone raises anything.
    pub fn clear(&self) {
        clear_qobject(&self.qobject);
    }

    /// Hands out the raised signals, oldest first, and empties the outbox.
    pub fn take_pending(&mut self) -> (pending: Vec<Emission<MessagesSignal>>)
        ensures
            pending@ == old(self)@,
            final(self)@ == Seq::<Emission<MessagesSignal>>::empty(),
    {
        let mut pending: Vec<Emission<MessagesSignal>> = Vec::new();
        std::mem::swap(&mut pending, &mut self.outbox);
        pending
    }

    /// Raises `IsEmptyChanged`, unless the QObject is gone.
    pub fn is_empty_changed(&mut self)
        ensures
            raised(old(self)@, final(self)@, MessagesSignal::IsEmptyChanged),
    {
        let qobject = load_qobject(&self.qobject);
        queue_signal(&mut self.outbox, qobject, MessagesSignal::IsEmptyChanged);
        assert(self.outbox@ == after_raise(old(self).outbox@, qobject, MessagesSignal::IsEmptyChanged));
    }

    /// Raises `LastAuthorChanged`, unless the QObject is gone.
    pub fn last_author_changed(&mut self)
        ensures
            raised(old(self)@, final(self)@, MessagesSignal::LastAuthorChanged),
    {
        let qobject = load_qobject(&self.qobject);
        queue_signal(&mut self.outbox, qobject, MessagesSignal::LastAuthorChanged);
        assert(self.outbox@ == after_raise(old(self).outbox@, qobject, MessagesSignal::LastAuthorChanged));
    }

    /// Raises `LastBodyChanged`, unless the QObject is gone.
    pub fn last_body_changed(&mut self)
        ensures
            raised(old(self)@, final(self)@, MessagesSignal::LastBodyChanged),
    {
        let qobject = load_qobject(&self.qobject);
        queue_signal(&mut self.outbox, qobject, MessagesSignal::LastBodyChanged);
        assert(self.outbox@ == after_raise(old(self).outbox@, qobject, MessagesSignal::LastBodyChanged));
    }

    /// Raises `LastStatusChanged`, unless the QObject is gone.
    pub fn last_status_changed(&mut self)
        ensures
            raised(old(self)@, final(self)@, MessagesSignal::LastStatusChanged),
    {
        let qobject = load_qobject(&self.qobject);
        queue_signal(&mut self.outbox, qobject, MessagesSignal::LastStatusChanged);
        assert(self.outbox@ == after_raise(old(self).outbox@, qobject, MessagesSignal::LastStatusChanged));
    }

    /// Raises `LastTimeChanged`, unless the QObject is gone.
    pub fn last_time_changed(&mut self)
        ensures
            raised(old(self)@, final(self)@, MessagesSignal::LastTimeChanged),
    {
        let qobject = load_qobject(&self.qobject);
        queue_signal(&mut self.outbox, qobject, MessagesSignal::LastTimeChanged);
        assert(self.outbox@ == after_raise(old(self).outbox@, qobject, MessagesSignal::LastTimeChanged));
    }

    /// Raises `SearchActiveChanged`, unless the QObject is gone.
    pub fn search_active_changed(&mut self)
        ensures
            raised(old(self)@, final(self)@, MessagesSignal::SearchActiveChanged),
    {
        let qobject = load_qobject(&self.qobject);
        queue_signal(&mut self.outbox, qobject, MessagesSignal::SearchActiveChanged);
        assert(self.outbox@ == after_raise(old(self).outbox@, qobject, MessagesSignal::SearchActiveChanged));
    }

    /// Raises `SearchIndexChanged`, unless the QObject is gone.
    pub fn search_index_changed(&mut self)
        ensures
            raised(old(self)@, final(self)@, MessagesSignal::SearchIndexChanged),
    {
        let qobject = load_qobject(&self.qobject);
        queue_signal(&mut self.outbox, qobject, MessagesSignal::SearchIndexChanged);
        assert(self.outbox@ == after_raise(old(self).outbox@, qobject, MessagesSignal::SearchIndexChanged));
    }

    /// Raises `SearchNumMatchesChanged`, unless the QObject is gone.
    pub fn search_num_matches_changed(&mut self)
        ensures
            raised(old(self)@, final(self)@, MessagesSignal::SearchNumMatchesChanged),
    {
        let qobject = load_qobject(&self.qobject);
        queue_signal(&mut self.outbox, qobject, MessagesSignal::SearchNumMatchesChanged);
        assert(self.outbox@ == after_raise(old(self).outbox@, qobject, MessagesSignal::SearchNumMatchesChanged));
    }

    /// Raises `SearchPatternChanged`, unless the QObject is gone.
    pub fn search_pattern_changed(&mut self)
        ensures
            raised(old(self)@, final(self)@, MessagesSignal::SearchPatternChanged),
    {
        let qobject = load_qobject(&self.qobject);
        queue_signal(&mut self.outbox, qobject, MessagesSignal::SearchPatternChanged);
        assert(self.outbox@ == after_raise(old(self).outbox@, qobject, MessagesSignal::SearchPatternChanged));
    }

    /// Raises `SearchRegexChanged`, unless the QObject is gone.
    pub fn search_regex_changed(&mut self)
        ensures
            raised(old(self)@, final(self)@, MessagesSignal::SearchRegexChanged),
    {
        let qobject = load_qobject(&self.qobject);
        queue_signal(&mut self.outbox, qobject, MessagesSignal::SearchRegexChanged);
        assert(self.outbox@ == after_raise(old(self).outbox@, qobject, MessagesSignal::SearchRegexChanged));
    }

    /// Raises `NewDataReady`, unless the QObject is gone.
    pub fn new_data_ready(&mut self)
        ensures
            raised(old(self)@, final(self)@, MessagesSignal::NewDataReady),
    {
        let qobject = load_qobject(&self.qobject);
        queue_signal(&mut self.outbox, qobject, MessagesSignal::NewDataReady);
        assert(self.outbox@ == after_raise(old(self).outbox@, qobject, MessagesSignal::NewDataReady));
    }

}

/// The model notifications of a `Messages` list, sent to its QObject unless that is null.
#[derive(Clone)]
pub struct MessagesList {
    qobject: usize,
    calls: Vec<ModelCall>,
}

impl View for MessagesList {
    type V = Seq<ModelCall>;

    closed spec fn view(&self) -> Seq<ModelCall> {
        self.calls@
    }
}

impl MessagesList {
    /// The address of the QObject that receives the notifications.
    pub closed spec fn target(&self) -> usize {
        self.qobject
    }

    /// A list model bound to the QObject at address `qobject`, with nothing sent yet.
    pub fn new(qobject: usize) -> (list: MessagesList)
        ensures
            list.target() == qobject,
            list@ == Seq::<ModelCall>::empty(),
    {
        MessagesList { qobject, calls: Vec::new() }
    }

    /// The address of the QObject that receives the notifications.
    pub fn qobject(&self) -> (qobject: usize)
        ensures
            qobject == self.target(),
    {
        self.qobject
    }

    /// Hands out the queued notifications, oldest first, and empties the queue.
    pub fn take_calls(&mut self) -> (calls: Vec<ModelCall>)
        ensures
            calls@ == old(self)@,
            final(self)@ == Seq::<ModelCall>::empty(),
            final(self).target() == old(self).target(),
    {
        let mut calls: Vec<ModelCall> = Vec::new();
        std::mem::swap(&mut calls, &mut self.calls);
        calls
    }

    /// Sends `LayoutAboutToBeChanged` to the view.
    pub fn layout_about_to_be_changed(&mut self)
        ensures
            final(self).target() == old(self).target(),
            final(self)@ == after_call(old(self)@, old(self).target(), ModelCall::LayoutAboutToBeChanged),
    {
        queue_call(&mut self.calls, self.qobject, ModelCall::LayoutAboutToBeChanged);
    }

    /// Sends `LayoutChanged` to the view.
    pub fn layout_changed(&mut self)
        ensures
            final(self).target() == old(self).target(),
            final(self)@ == after_call(old(self)@, old(self).target(), ModelCall::LayoutChanged),
    {
        queue_call(&mut self.calls, self.qobject, ModelCall::LayoutChanged);
    }

    /// Sends `BeginResetModel` to the view.
    pub fn begin_reset_model(&mut self)
        ensures
            final(self).target() == old(self).target(),
            final(self)@ == after_call(old(self)@, old(self).target(), ModelCall::BeginResetModel),
    {
        queue_call(&mut self.calls, self.qobject, ModelCall::BeginResetModel);
    }

    /// Sends `EndResetModel` to the view.
    pub fn end_reset_model(&mut self)
        ensures
            final(self).target() == old(self).target(),
            final(self)@ == after_call(old(self)@, old(self).target(), ModelCall::EndResetModel),
    {
        queue_call(&mut self.calls, self.qobject, ModelCall::EndResetModel);
    }

    /// Sends `EndInsertRows` to the view.
    pub fn end_insert_rows(&mut self)
        ensures
            final(self).target() == old(self).target(),
            final(self)@ == after_call(old(self)@, old(self).target(), ModelCall::EndInsertRows),
    {
        queue_call(&mut self.calls, self.qobject, ModelCall::EndInsertRows);
    }

    /// Sends `EndMoveRows` to the view.
    pub fn end_move_rows(&mut self)
        ensures
            final(self).target() == old(self).target(),
            final(self)@ == after_call(old(self)@, old(self).target(), ModelCall::EndMoveRows),
    {
        queue_call(&mut self.calls, self.qobject, ModelCall::EndMoveRows);
    }

    /// Sends `EndRemoveRows` to the view.
    pub fn end_remove_rows(&mut self)
        ensures
            final(self).target() == old(self).target(),
            final(self)@ == after_call(old(self)@, old(self).target(), ModelCall::EndRemoveRows),
    {
        queue_call(&mut self.calls, self.qobject, ModelCall::EndRemoveRows);
    }

    /// Sends `BeginInsertRows` to the view.
    pub fn begin_insert_rows(&mut self, first: usize, last: usize)
        ensures
            final(self).target() == old(self).target(),
            final(self)@ == after_call(old(self)@, old(self).target(), ModelCall::BeginInsertRows { first, last }),
    {
        queue_call(&mut self.calls, self.qobject, ModelCall::BeginInsertRows { first, last });
    }

    /// Sends `BeginRemoveRows` to the view.
    pub fn begin_remove_rows(&mut self, first: usize, last: usize)
        ensures
            final(self).target() == old(self).target(),
            final(self)@ == after_call(old(self)@, old(self).target(), ModelCall::BeginRemoveRows { first, last }),
    {
        queue_call(&mut self.calls, self.qobject, ModelCall::BeginRemoveRows { first, last });
    }

    /// Sends `DataChanged` to the view.
    pub fn data_changed(&mut self, first: usize, last: usize)
        ensures
            final(self).target() == old(self).target(),
            final(self)@ == after_call(old(self)@, old(self).target(), ModelCall::DataChanged { first, last }),
    {
        queue_call(&mut self.calls, self.qobject, ModelCall::DataChanged { first, last });
    }

    /// Sends `BeginMoveRows` to the view.
    pub fn begin_move_rows(&mut self, first: usize, last: usize, destination: usize)
        ensures
            final(self).target() == old(self).target(),
            final(self)@ == after_call(old(self)@, old(self).target(), ModelCall::BeginMoveRows { first, last, destination }),
    {
        queue_call(&mut self.calls, self.qobject, ModelCall::BeginMoveRows { first, last, destination });
    }

}

} // verus!
