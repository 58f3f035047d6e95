//! Signal emitters and list models of the `conversation_builder` Qt objects.

use crate::signal::{after_call, after_raise, clear_qobject, load_qobject, new_qobject, queue_call, queue_signal, raised, share_qobject, Emission, ModelCall};
use std::sync::atomic::AtomicUsize;
use std::sync::Arc;
use vstd::prelude::*;

verus! {

/// Marker for the Qt object behind a `ConversationBuilder` model; its address is what the emitters carry.
pub struct ConversationBuilderQObject;

/// The signals that a `ConversationBuilderEmitter` raises on its QObject.
#[derive(Clone, Copy, Debug, PartialEq, Eq)]
pub enum ConversationBuilderSignal {
    PictureChanged,
    NewDataReady,
}

/// Raises the signals of a `ConversationBuilder` object on its QObject. The QObject address is
/// shared by every clone of the emitter, so that clearing it (when the object is freed)
/// silences them all; raised signals wait in the outbox until they are delivered.
pub struct ConversationBuilderEmitter {
    qobject: Arc<AtomicUsize>,
    outbox: Vec<Emission<ConversationBuilderSignal>>,
}

impl View for ConversationBuilderEmitter {
    type V = Seq<Emission<ConversationBuilderSignal>>;

    closed spec fn view(&self) -> Seq<Emission<ConversationBuilderSignal>> {
        self.outbox@
    }
}

impl ConversationBuilderEmitter {
    /// An emitter for the QObject at address `qobject`, with nothing raised yet.
    pub fn new(qobject: usize) -> (emitter: ConversationBuilderEmitter)
        ensures
            emitter@ == Seq::<Emission<ConversationBuilderSignal>>::empty(),
    {
        ConversationBuilderEmitter { qobject: new_qobject(qobject), outbox: Vec::new() }
    }

    /// Clones the emitter: the clone shares the QObject address and starts with an
    /// empty outbox.
    pub fn clone(&mut self) -> (cloned: ConversationBuilderEmitter)
        ensures
            cloned@ == Seq::<Emission<ConversationBuilderSignal>>::empty(),
            final(self)@ == old(self)@,
    {
        ConversationBuilderEmitter { qobject: share_qobject(&self.qobject), outbox: Vec::new() }
    }

    /// Marks the QObject as destroyed; from then on no clone raises anything.
    pub fn clear(&self) {
        clear_qobject(&self.qobject);
    }

    /// Hands out the raised signals, oldest first, and empties the outbox.
    pub fn take_pending(&mut self) -> (pending: Vec<Emission<ConversationBuilderSignal>>)
        ensures
            pending@ == old(self)@,
            final(self)@ == Seq::<Emission<ConversationBuilderSignal>>::empty(),
    {
        let mut pending: Vec<Emission<ConversationBuilderSignal>> = Vec::new();
        std::mem::swap(&mut pending, &mut self.outbox);
        pending
    }

    /// Raises `PictureChanged`, unless the QObject is gone.
    pub fn picture_changed(&mut self)
        ensures
            raised(old(self)@, final(self)@, ConversationBuilderSignal::PictureChanged),
    {
        let qobject = load_qobject(&self.qobject);
        queue_signal(&mut self.outbox, qobject, ConversationBuilderSignal::PictureChanged);
        assert(self.outbox@ == after_raise(old(self).outbox@, qobject, ConversationBuilderSignal::PictureChanged));
    }

    /// Raises `NewDataReady`, unless the QObject is gone.
    pub fn new_data_ready(&mut self)
        ensures
            raised(old(self)@, final(self)@, ConversationBuilderSignal::NewDataReady),
    {
        let qobject = load_qobject(&self.qobject);
        queue_signal(&mut self.outbox, qobject, ConversationBuilderSignal::NewDataReady);
        assert(self.outbox@ == after_raise(old(self).outbox@, qobject, ConversationBuilderSignal::NewDataReady));
    }

}

/// The model notifications of a `ConversationBuilder` list, sent to its QObject unless that is null.
#[derive(Clone)]
pub struct ConversationBuilderList {
    qobject: usize,
    calls: Vec<ModelCall>,
}

impl View for ConversationBuilderList {
    type V = Seq<ModelCall>;

    closed spec fn view(&self) -> Seq<ModelCall> {
        self.calls@
    }
}

impl ConversationBuilderList {
    /// The address of the QObject that receives the notifications.
    pub closed spec fn target(&self) -> usize {
        self.qobject
    }

    /// A list model bound to the QObject at address `qobject`, with nothing sent yet.
    pub fn new(qobject: usize) -> (list: ConversationBuilderList)
        ensures
            list.target() == qobject,
            list@ == Seq::<ModelCall>::empty(),
    {
        ConversationBuilderList { qobject, calls: Vec::new() }
    }

    /// The address of the QObject that receives the notifications.
    pub fn qobject(&self) -> (qobject: usize)
        ensures
            qobject == self.target(),
    {
        self.qobject
    }

    /// Hands out the queued notifications, oldest first, and empties the queue.
    pub fn take_calls(&mut self) -> (calls: Vec<ModelCall>)
        ensures
            calls@ == old(self)@,
            final(self)@ == Seq::<ModelCall>::empty(),
            final(self).target() == old(self).target(),
    {
        let mut calls: Vec<ModelCall> = Vec::new();
        std::mem::swap(&mut calls, &mut self.calls);
        calls
    }

    /// Sends `LayoutAboutToBeChanged` to the view.
    pub fn layout_about_to_be_changed(&mut self)
        ensures
            final(self).target() == old(self).target(),
            final(self)@ == after_call(old(self)@, old(self).target(), ModelCall::LayoutAboutToBeChanged),
    {
        queue_call(&mut self.calls, self.qobject, ModelCall::LayoutAboutToBeChanged);
    }

    /// Sends `LayoutChanged` to the view.
    pub fn layout_changed(&mut self)
        ensures
            final(self).target() == old(self).target(),
            final(self)@ == after_call(old(self)@, old(self).target(), ModelCall::LayoutChanged),
    {
        queue_call(&mut self.calls, self.qobject, ModelCall::LayoutChanged);
    }

    /// Sends `BeginResetModel` to the view.
    pub fn begin_reset_model(&mut self)
        ensures
            final(self).target() == old(self).target(),
            final(self)@ == after_call(old(self)@, old(self).target(), ModelCall::BeginResetModel),
    {
        queue_call(&mut self.calls, self.qobject, ModelCall::BeginResetModel);
    }

    /// Sends `EndResetModel` to the view.
    pub fn end_reset_model(&mut self)
        ensures
            final(self).target() == old(self).target(),
            final(self)@ == after_call(old(self)@, old(self).target(), ModelCall::EndResetModel),
    {
        queue_call(&mut self.calls, self.qobject, ModelCall::EndResetModel);
    }

    /// Sends `EndInsertRows` to the view.
    pub fn end_insert_rows(&mut self)
        ensures
            final(self).target() == old(self).target(),
            final(self)@ == after_call(old(self)@, old(self).target(), ModelCall::EndInsertRows),
    {
        queue_call(&mut self.calls, self.qobject, ModelCall::EndInsertRows);
    }

    /// Sends `EndMoveRows` to the view.
    pub fn end_move_rows(&mut self)
        ensures
            final(self).target() == old(self).target(),
            final(self)@ == after_call(old(self)@, old(self).target(), ModelCall::EndMoveRows),
    {
        queue_call(&mut self.calls, self.qobject, ModelCall::EndMoveRows);
    }

    /// Sends `EndRemoveRows` to the view.
    pub fn end_remove_rows(&mut self)
        ensures
            final(self).target() == old(self).target(),
            final(self)@ == after_call(old(self)@, old(self).target(), ModelCall::EndRemoveRows),
    {
        queue_call(&mut self.calls, self.qobject, ModelCall::EndRemoveRows);
    }

    /// Sends `BeginInsertRows` to the view.
    pub fn begin_insert_rows(&mut self, first: usize, last: usize)
        ensures
            final(self).target() == old(self).target(),
            final(self)@ == after_call(old(self)@, old(self).target(), ModelCall::BeginInsertRows { first, last }),
    {
        queue_call(&mut self.calls, self.qobject, ModelCall::BeginInsertRows { first, last });
    }

    /// Sends `BeginRemoveRows` to the view.
    pub fn begin_remove_rows(&mut self, first: usize, last: usize)
        ensures
            final(self).target() == old(self).target(),
            final(self)@ == after_call(old(self)@, old(self).target(), ModelCall::BeginRemoveRows { first, last }),
    {
        queue_call(&mut self.calls, self.qobject, ModelCall::BeginRemoveRows { first, last });
    }

    /// Sends `DataChanged` to the view.
    pub fn data_changed(&mut self, first: usize, last: usize)
        ensures
            final(self).target() == old(self).target(),
            final(self)@ == after_call(old(self)@, old(self).target(), ModelCall::DataChanged { first, last }),
    {
        queue_call(&mut self.calls, self.qobject, ModelCall::DataChanged { first, last });
    }

    /// Sends `BeginMoveRows` to the view.
    pub fn begin_move_rows(&mut self, first: usize, last: usize, destination: usize)
        ensures
            final(self).target() == old(self).target(),
            final(self)@ == after_call(old(self)@, old(self).target(), ModelCall::BeginMoveRows { first, last, destination }),
    {
        queue_call(&mut self.calls, self.qobject, ModelCall::BeginMoveRows { first, last, destination });
    }

}

} // verus!
