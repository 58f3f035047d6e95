//! The Qt-facing objects: signal emitters, list models and the small value
//! types that cross the boundary to C++.

pub mod attachments;
pub mod config;
pub mod conversation_builder;
pub mod conversation_content;
pub mod conversations;
pub mod document_attachments;
pub mod emoji_picker;
pub mod errors;
pub mod herald;
pub mod media_attachments;
pub mod message_builder;
pub mod message_search;
pub mod messages;
pub mod notifications;
pub mod reply_width_calc;
pub mod shared_conversations;
pub mod user;
pub mod users;
pub mod users_search;
pub mod utils;

use crate::signal::{after_call, after_raise, clear_qobject, load_qobject, new_qobject, queue_call, queue_signal, raised, share_qobject, Emission, ModelCall};
use std::sync::atomic::AtomicUsize;
use std::sync::Arc;
use vstd::prelude::*;

verus! {

/// An optional value in the layout that C++ reads: the payload, and whether it is there.
pub struct COption<T> {
    data: T,
    some: bool,
}

impl<T> COption<T> {
    /// Whether a payload is present.
    pub closed spec fn is_some(&self) -> bool {
        self.some
    }

    /// The payload slot, meaningful when `is_some`.
    pub closed spec fn payload(&self) -> T {
        self.data
    }

    /// The value as an `Option`: the payload when one is present, `None` otherwise.
    pub fn into(self) -> (opt: Option<T>)
        ensures
            opt == (if self.is_some() { Some(self.payload()) } else { None::<T> }),
    {
        if self.some {
            Some(self.data)
        } else {
            None
        }
    }
}

impl<T: Default> COption<T> {
    /// The C layout of `t`: its payload when there is one, `T::default()` otherwise.
    pub fn from_option(t: Option<T>) -> (c: COption<T>)
        ensures
            c.is_some() == t.is_some(),
            t.is_some() ==> c.payload() == t.unwrap(),
    {
        match t {
            Some(v) => COption { data: v, some: true },
            None => COption { data: T::default(), some: false },
        }
    }
}

/// Stand-in for Qt's `QString`, only ever seen behind a pointer.
pub struct QString;

/// Stand-in for Qt's `QByteArray`, only ever seen behind a pointer.
pub struct QByteArray;

/// The sort order that a Qt view asks for.
#[derive(PartialEq, Eq, Debug)]
pub enum SortOrder {
    Ascending,
    Descending,
}


/// A count from C as a `usize`; a negative count is refused by `requires`.
pub fn to_usize(n: i32) -> (u: usize)
    requires
        n >= 0,
    ensures
        u == n,
{
    n as usize
}

/// A `usize` as a C `int`; one that does not fit is refused by `requires`.
pub fn to_c_int(n: usize) -> (c: i32)
    requires
        n <= i32::MAX,
    ensures
        c == n,
{
    n as i32
}

/// Marker for the Qt object behind a `Config` model; its address is what the emitters carry.
pub struct ConfigQObject;

/// Marker for the Qt object behind a `Contacts` model; its address is what the emitters carry.
pub struct ContactsQObject;

/// Marker for the Qt object behind a `Messages` model; its address is what the emitters carry.
pub struct MessagesQObject;

/// Marker for the Qt object behind a `NetworkHandle` model; its address is what the emitters carry.
pub struct NetworkHandleQObject;

/// The signals that a `ConfigEmitter` raises on its QObject.
#[derive(Clone, Copy, Debug, PartialEq, Eq)]
pub enum ConfigSignal {
    ColorChanged,
    ColorschemeChanged,
    ConfigIdChanged,
    InitChanged,
    NameChanged,
    ProfilePictureChanged,
}

/// Raises the signals of a `Config` object on its QObject. The QObject address is
/// shared by every clone of the emitter, so that clearing it (when the object is freed)
/// silences them all; raised signals wait in the outbox until they are delivered.
pub struct ConfigEmitter {
    qobject: Arc<AtomicUsize>,
    outbox: Vec<Emission<ConfigSignal>>,
}

impl View for ConfigEmitter {
    type V = Seq<Emission<ConfigSignal>>;

    closed spec fn view(&self) -> Seq<Emission<ConfigSignal>> {
        self.outbox@
    }
}

impl ConfigEmitter {
    /// An emitter for the QObject at address `qobject`, with nothing raised yet.
    pub fn new(qobject: usize) -> (emitter: ConfigEmitter)
        ensures
            emitter@ == Seq::<Emission<ConfigSignal>>::empty(),
    {
        ConfigEmitter { qobject: new_qobject(qobject), outbox: Vec::new() }
    }

    /// Clones the emitter: the clone shares the QObject address and starts with an
    /// empty outbox.
    pub fn clone(&mut self) -> (cloned: ConfigEmitter)
        ensures
            cloned@ == Seq::<Emission<ConfigSignal>>::empty(),
            final(self)@ == old(self)@,
    {
        ConfigEmitter { qobject: share_qobject(&self.qobject), outbox: Vec::new() }
    }

    /// Marks the QObject as destroyed; from then on no clone raises anything.
    pub(crate) fn clear(&self) {
        clear_qobject(&self.qobject);
    }

    /// Hands out the raised signals, oldest first, and empties the outbox.
    pub fn take_pending(&mut self) -> (pending: Vec<Emission<ConfigSignal>>)
        ensures
            pending@ == old(self)@,
            final(self)@ == Seq::<Emission<ConfigSignal>>::empty(),
    {
        let mut pending: Vec<Emission<ConfigSignal>> = Vec::new();
        std::mem::swap(&mut pending, &mut self.outbox);
        pending
    }

    /// Raises `ColorChanged`, unless the QObject is gone.
    pub fn color_changed(&mut self)
        ensures
            raised(old(self)@, final(self)@, ConfigSignal::ColorChanged),
    {
        let qobject = load_qobject(&self.qobject);
        queue_signal(&mut self.outbox, qobject, ConfigSignal::ColorChanged);
        assert(self.outbox@ == after_raise(old(self).outbox@, qobject, ConfigSignal::ColorChanged));
    }

    /// Raises `ColorschemeChanged`, unless the QObject is gone.
    pub fn colorscheme_changed(&mut self)
        ensures
            raised(old(self)@, final(self)@, ConfigSignal::ColorschemeChanged),
    {
        let qobject = load_qobject(&self.qobject);
        queue_signal(&mut self.outbox, qobject, ConfigSignal::ColorschemeChanged);
        assert(self.outbox@ == after_raise(old(self).outbox@, qobject, ConfigSignal::ColorschemeChanged));
    }

    /// Raises `ConfigIdChanged`, unless the QObject is gone.
    pub fn config_id_changed(&mut self)
        ensures
            raised(old(self)@, final(self)@, ConfigSignal::ConfigIdChanged),
    {
        let qobject = load_qobject(&self.qobject);
        queue_signal(&mut self.outbox, qobject, ConfigSignal::ConfigIdChanged);
        assert(self.outbox@ == after_raise(old(self).outbox@, qobject, ConfigSignal::ConfigIdChanged));
    }

    /// Raises `InitChanged`, unless the QObject is gone.
    pub fn init_changed(&mut self)
        ensures
            raised(old(self)@, final(self)@, ConfigSignal::InitChanged),
    {
        let qobject = load_qobject(&self.qobject);
        queue_signal(&mut self.outbox, qobject, ConfigSignal::InitChanged);
        assert(self.outbox@ == after_raise(old(self).outbox@, qobject, ConfigSignal::InitChanged));
    }

    /// Raises `NameChanged`, unless the QObject is gone.
    pub fn name_changed(&mut self)
        ensures
            raised(old(self)@, final(self)@, ConfigSignal::NameChanged),
    {
        let qobject = load_qobject(&self.qobject);
        queue_signal(&mut self.outbox, qobject, ConfigSignal::NameChanged);
        assert(self.outbox@ == after_raise(old(self).outbox@, qobject, ConfigSignal::NameChanged));
    }

    /// Raises `ProfilePictureChanged`, unless the QObject is gone.
    pub fn profile_picture_changed(&mut self)
        ensures
            raised(old(self)@, final(self)@, ConfigSignal::ProfilePictureChanged),
    {
        let qobject = load_qobject(&self.qobject);
        queue_signal(&mut self.outbox, qobject, ConfigSignal::ProfilePictureChanged);
        assert(self.outbox@ == after_raise(old(self).outbox@, qobject, ConfigSignal::ProfilePictureChanged));
    }

}

/// The signals that a `ContactsEmitter` raises on its QObject.
#[derive(Clone, Copy, Debug, PartialEq, Eq)]
pub enum ContactsSignal {
    FilterChanged,
    FilterRegexChanged,
    NewDataReady,
}

/// Raises the signals of a `Contacts` object on its QObject. The QObject address is
/// shared by every clone of the emitter, so that clearing it (when the object is freed)
/// silences them all; raised signals wait in the outbox until they are delivered.
pub struct ContactsEmitter {
    qobject: Arc<AtomicUsize>,
    outbox: Vec<Emission<ContactsSignal>>,
}

impl View for ContactsEmitter {
    type V = Seq<Emission<ContactsSignal>>;

    closed spec fn view(&self) -> Seq<Emission<ContactsSignal>> {
        self.outbox@
    }
}

impl ContactsEmitter {
    /// An emitter for the QObject at address `qobject`, with nothing raised yet.
    pub fn new(qobject: usize) -> (emitter: ContactsEmitter)
        ensures
            emitter@ == Seq::<Emission<ContactsSignal>>::empty(),
    {
        ContactsEmitter { qobject: new_qobject(qobject), outbox: Vec::new() }
    }

    /// Clones the emitter: the clone shares the QObject address and starts with an
    /// empty outbox.
    pub fn clone(&mut self) -> (cloned: ContactsEmitter)
        ensures
            cloned@ == Seq::<Emission<ContactsSignal>>::empty(),
            final(self)@ == old(self)@,
    {
        ContactsEmitter { qobject: share_qobject(&self.qobject), outbox: Vec::new() }
    }

    /// Marks the QObject as destroyed; from then on no clone raises anything.
    pub(crate) fn clear(&self) {
        clear_qobject(&self.qobject);
    }

    /// Hands out the raised signals, oldest first, and empties the outbox.
    pub fn take_pending(&mut self) -> (pending: Vec<Emission<ContactsSignal>>)
        ensures
            pending@ == old(self)@,
            final(self)@ == Seq::<Emission<ContactsSignal>>::empty(),
    {
        let mut pending: Vec<Emission<ContactsSignal>> = Vec::new();
        std::mem::swap(&mut pending, &mut self.outbox);
        pending
    }

    /// Raises `FilterChanged`, unless the QObject is gone.
    pub fn filter_changed(&mut self)
        ensures
            raised(old(self)@, final(self)@, ContactsSignal::FilterChanged),
    {
        let qobject = load_qobject(&self.qobject);
        queue_signal(&mut self.outbox, qobject, ContactsSignal::FilterChanged);
        assert(self.outbox@ == after_raise(old(self).outbox@, qobject, ContactsSignal::FilterChanged));
    }

    /// Raises `FilterRegexChanged`, unless the QObject is gone.
    pub fn filter_regex_changed(&mut self)
        ensures
            raised(old(self)@, final(self)@, ContactsSignal::FilterRegexChanged),
    {
        let qobject = load_qobject(&self.qobject);
        queue_signal(&mut self.outbox, qobject, ContactsSignal::FilterRegexChanged);
        assert(self.outbox@ == after_raise(old(self).outbox@, qobject, ContactsSignal::FilterRegexChanged));
    }

    /// Raises `NewDataReady`, unless the QObject is gone.
    pub fn new_data_ready(&mut self)
        ensures
            raised(old(self)@, final(self)@, ContactsSignal::NewDataReady),
    {
        let qobject = load_qobject(&self.qobject);
        queue_signal(&mut self.outbox, qobject, ContactsSignal::NewDataReady);
        assert(self.outbox@ == after_raise(old(self).outbox@, qobject, ContactsSignal::NewDataReady));
    }

}

/// The signals that a `MessagesEmitter` raises on its QObject.
#[derive(Clone, Copy, Debug, PartialEq, Eq)]
pub enum MessagesSignal {
    ConversationIdChanged,
    NewDataReady,
}

/// Raises the signals of a `Messages` object on its QObject. The QObject address is
/// shared by every clone of the emitter, so that clearing it (when the object is freed)
/// silences them all; raised signals wait in the outbox until they are delivered.
pub struct MessagesEmitter {
    qobject: Arc<AtomicUsize>,
    outbox: Vec<Emission<MessagesSignal>>,
}

impl View for MessagesEmitter {
    type V = Seq<Emission<MessagesSignal>>;

    closed spec fn view(&self) -> Seq<Emission<MessagesSignal>> {
        self.outbox@
    }
}

impl MessagesEmitter {
    /// An emitter for the QObject at address `qobject`, with nothing raised yet.
    pub fn new(qobject: usize) -> (emitter: MessagesEmitter)
        ensures
            emitter@ == Seq::<Emission<MessagesSignal>>::empty(),
    {
        MessagesEmitter { qobject: new_qobject(qobject), outbox: Vec::new() }
    }

    /// Clones the emitter: the clone shares the QObject address and starts with an
    /// empty outbox.
    pub fn clone(&mut self) -> (cloned: MessagesEmitter)
        ensures
            cloned@ == Seq::<Emission<MessagesSignal>>::empty(),
            final(self)@ == old(self)@,
    {
        MessagesEmitter { qobject: share_qobject(&self.qobject), outbox: Vec::new() }
    }

    /// Marks the QObject as destroyed; from then on no clone raises anything.
    pub(crate) fn clear(&self) {
        clear_qobject(&self.qobject);
    }

    /// Hands out the raised signals, oldest first, and empties the outbox.
    pub fn take_pending(&mut self) -> (pending: Vec<Emission<MessagesSignal>>)
        ensures
            pending@ == old(self)@,
            final(self)@ == Seq::<Emission<MessagesSignal>>::empty(),
    {
        let mut pending: Vec<Emission<MessagesSignal>> = Vec::new();
        std::mem::swap(&mut pending, &mut self.outbox);
        pending
    }

    /// Raises `ConversationIdChanged`, unless the QObject is gone.
    pub fn conversation_id_changed(&mut self)
        ensures
            raised(old(self)@, final(self)@, MessagesSignal::ConversationIdChanged),
    {
        let qobject = load_qobject(&self.qobject);
        queue_signal(&mut self.outbox, qobject, MessagesSignal::ConversationIdChanged);
        assert(self.outbox@ == after_raise(old(self).outbox@, qobject, MessagesSignal::ConversationIdChanged));
    }

    /// Raises `NewDataReady`, unless the QObject is gone.
    pub fn new_data_ready(&mut self)
        ensures
            raised(old(self)@, final(self)@, MessagesSignal::NewDataReady),
    {
        let qobject = load_qobject(&self.qobject);
        queue_signal(&mut self.outbox, qobject, MessagesSignal::NewDataReady);
        assert(self.outbox@ == after_raise(old(self).outbox@, qobject, MessagesSignal::NewDataReady));
    }

}

/// The signals that a `NetworkHandleEmitter` raises on its QObject.
#[derive(Clone, Copy, Debug, PartialEq, Eq)]
pub enum NetworkHandleSignal {
    ConnectionPendingChanged,
    ConnectionUpChanged,
    MembersDataChanged,
    NewMessageChanged,
}

/// Raises the signals of a `NetworkHandle` object on its QObject. The QObject address is
/// shared by every clone of the emitter, so that clearing it (when the object is freed)
/// silences them all; raised signals wait in the outbox until they are delivered.
pub struct NetworkHandleEmitter {
    qobject: Arc<AtomicUsize>,
    outbox: Vec<Emission<NetworkHandleSignal>>,
}

impl View for NetworkHandleEmitter {
    type V = Seq<Emission<NetworkHandleSignal>>;

    closed spec fn view(&self) -> Seq<Emission<NetworkHandleSignal>> {
        self.outbox@
    }
}

impl NetworkHandleEmitter {
    /// An emitter for the QObject at address `qobject`, with nothing raised yet.
    pub fn new(qobject: usize) -> (emitter: NetworkHandleEmitter)
        ensures
            emitter@ == Seq::<Emission<NetworkHandleSignal>>::empty(),
    {
        NetworkHandleEmitter { qobject: new_qobject(qobject), outbox: Vec::new() }
    }

    /// Clones the emitter: the clone shares the QObject address and starts with an
    /// empty outbox.
    pub fn clone(&mut self) -> (cloned: NetworkHandleEmitter)
        ensures
            cloned@ == Seq::<Emission<NetworkHandleSignal>>::empty(),
            final(self)@ == old(self)@,
    {
        NetworkHandleEmitter { qobject: share_qobject(&self.qobject), outbox: Vec::new() }
    }

    /// Marks the QObject as destroyed; from then on no clone raises anything.
    pub(crate) fn clear(&self) {
        clear_qobject(&self.qobject);
    }

    /// Hands out the raised signals, oldest first, and empties the outbox.
    pub fn take_pending(&mut self) -> (pending: Vec<Emission<NetworkHandleSignal>>)
        ensures
            pending@ == old(self)@,
            final(self)@ == Seq::<Emission<NetworkHandleSignal>>::empty(),
    {
        let mut pending: Vec<Emission<NetworkHandleSignal>> = Vec::new();
        std::mem::swap(&mut pending, &mut self.outbox);
        pending
    }

    /// Raises `ConnectionPendingChanged`, unless the QObject is gone.
    pub fn connection_pending_changed(&mut self)
        ensures
            raised(old(self)@, final(self)@, NetworkHandleSignal::ConnectionPendingChanged),
    {
        let qobject = load_qobject(&self.qobject);
        queue_signal(&mut self.outbox, qobject, NetworkHandleSignal::ConnectionPendingChanged);
        assert(self.outbox@ == after_raise(old(self).outbox@, qobject, NetworkHandleSignal::ConnectionPendingChanged));
    }

    /// Raises `ConnectionUpChanged`, unless the QObject is gone.
    pub fn connection_up_changed(&mut self)
        ensures
            raised(old(self)@, final(self)@, NetworkHandleSignal::ConnectionUpChanged),
    {
        let qobject = load_qobject(&self.qobject);
        queue_signal(&mut self.outbox, qobject, NetworkHandleSignal::ConnectionUpChanged);
        assert(self.outbox@ == after_raise(old(self).outbox@, qobject, NetworkHandleSignal::ConnectionUpChanged));
    }

    /// Raises `MembersDataChanged`, unless the QObject is gone.
    pub fn members_data_changed(&mut self)
        ensures
            raised(old(self)@, final(self)@, NetworkHandleSignal::MembersDataChanged),
    {
        let qobject = load_qobject(&self.qobject);
        queue_signal(&mut self.outbox, qobject, NetworkHandleSignal::MembersDataChanged);
        assert(self.outbox@ == after_raise(old(self).outbox@, qobject, NetworkHandleSignal::MembersDataChanged));
    }

    /// Raises `NewMessageChanged`, unless the QObject is gone.
    pub fn new_message_changed(&mut self)
        ensures
            raised(old(self)@, final(self)@, NetworkHandleSignal::NewMessageChanged),
    {
        let qobject = load_qobject(&self.qobject);
        queue_signal(&mut self.outbox, qobject, NetworkHandleSignal::NewMessageChanged);
        assert(self.outbox@ == after_raise(old(self).outbox@, qobject, NetworkHandleSignal::NewMessageChanged));
    }

}

/// The model notifications of a `Contacts` list, sent to its QObject.
#[derive(Clone)]
pub struct ContactsList {
    qobject: usize,
    calls: Vec<ModelCall>,
}

impl View for ContactsList {
    type V = Seq<ModelCall>;

    closed spec fn view(&self) -> Seq<ModelCall> {
        self.calls@
    }
}

impl ContactsList {
    /// The address of the QObject that receives the notifications.
    pub closed spec fn target(&self) -> usize {
        self.qobject
    }

    /// A list model bound to the QObject at address `qobject`, with nothing sent yet.
    pub fn new(qobject: usize) -> (list: ContactsList)
        ensures
            list.target() == qobject,
            list@ == Seq::<ModelCall>::empty(),
    {
        ContactsList { qobject, calls: Vec::new() }
    }

    /// The address of the QObject that receives the notifications.
    pub fn qobject(&self) -> (qobject: usize)
        ensures
            qobject == self.target(),
    {
        self.qobject
    }

    /// Hands out the queued notifications, oldest first, and empties the queue.
    pub fn take_calls(&mut self) -> (calls: Vec<ModelCall>)
        ensures
            calls@ == old(self)@,
            final(self)@ == Seq::<ModelCall>::empty(),
            final(self).target() == old(self).target(),
    {
        let mut calls: Vec<ModelCall> = Vec::new();
        std::mem::swap(&mut calls, &mut self.calls);
        calls
    }

    /// Sends `LayoutAboutToBeChanged` to the view.
    pub fn layout_about_to_be_changed(&mut self)
        ensures
            final(self).target() == old(self).target(),
            final(self)@ == old(self)@.push(ModelCall::LayoutAboutToBeChanged),
    {
        self.calls.push(ModelCall::LayoutAboutToBeChanged);
    }

    /// Sends `LayoutChanged` to the view.
    pub fn layout_changed(&mut self)
        ensures
            final(self).target() == old(self).target(),
            final(self)@ == old(self)@.push(ModelCall::LayoutChanged),
    {
        self.calls.push(ModelCall::LayoutChanged);
    }

    /// Sends `DataChanged` to the view.
    pub fn data_changed(&mut self, first: usize, last: usize)
        ensures
            final(self).target() == old(self).target(),
            final(self)@ == old(self)@.push(ModelCall::DataChanged { first, last }),
    {
        self.calls.push(ModelCall::DataChanged { first, last });
    }

    /// Sends `BeginResetModel` to the view.
    pub fn begin_reset_model(&mut self)
        ensures
            final(self).target() == old(self).target(),
            final(self)@ == old(self)@.push(ModelCall::BeginResetModel),
    {
        self.calls.push(ModelCall::BeginResetModel);
    }

    /// Sends `EndResetModel` to the view.
    pub fn end_reset_model(&mut self)
        ensures
            final(self).target() == old(self).target(),
            final(self)@ == old(self)@.push(ModelCall::EndResetModel),
    {
        self.calls.push(ModelCall::EndResetModel);
    }

    /// Sends `BeginInsertRows` to the view.
    pub fn begin_insert_rows(&mut self, first: usize, last: usize)
        ensures
            final(self).target() == old(self).target(),
            final(self)@ == old(self)@.push(ModelCall::BeginInsertRows { first, last }),
    {
        self.calls.push(ModelCall::BeginInsertRows { first, last });
    }

    /// Sends `EndInsertRows` to the view.
    pub fn end_insert_rows(&mut self)
        ensures
            final(self).target() == old(self).target(),
            final(self)@ == old(self)@.push(ModelCall::EndInsertRows),
    {
        self.calls.push(ModelCall::EndInsertRows);
    }

    /// Sends `BeginMoveRows` to the view.
    pub fn begin_move_rows(&mut self, first: usize, last: usize, destination: usize)
        ensures
            final(self).target() == old(self).target(),
            final(self)@ == old(self)@.push(ModelCall::BeginMoveRows { first, last, destination }),
    {
        self.calls.push(ModelCall::BeginMoveRows { first, last, destination });
    }

    /// Sends `EndMoveRows` to the view.
    pub fn end_move_rows(&mut self)
        ensures
            final(self).target() == old(self).target(),
            final(self)@ == old(self)@.push(ModelCall::EndMoveRows),
    {
        self.calls.push(ModelCall::EndMoveRows);
    }

    /// Sends `BeginRemoveRows` to the view.
    pub fn begin_remove_rows(&mut self, first: usize, last: usize)
        ensures
            final(self).target() == old(self).target(),
            final(self)@ == old(self)@.push(ModelCall::BeginRemoveRows { first, last }),
    {
        self.calls.push(ModelCall::BeginRemoveRows { first, last });
    }

    /// Sends `EndRemoveRows` to the view.
    pub fn end_remove_rows(&mut self)
        ensures
            final(self).target() == old(self).target(),
            final(self)@ == old(self)@.push(ModelCall::EndRemoveRows),
    {
        self.calls.push(ModelCall::EndRemoveRows);
    }

}

/// The model notifications of a `Messages` list, sent to its QObject.
#[derive(Clone)]
pub struct MessagesList {
    qobject: usize,
    calls: Vec<ModelCall>,
}

impl View for MessagesList {
    type V = Seq<ModelCall>;

    closed spec fn view(&self) -> Seq<ModelCall> {
        self.calls@
    }
}

impl MessagesList {
    /// The address of the QObject that receives the notifications.
    pub closed spec fn target(&self) -> usize {
        self.qobject
    }

    /// A list model bound to the QObject at address `qobject`, with nothing sent yet.
    pub fn new(qobject: usize) -> (list: MessagesList)
        ensures
            list.target() == qobject,
            list@ == Seq::<ModelCall>::empty(),
    {
        MessagesList { qobject, calls: Vec::new() }
    }

    /// The address of the QObject that receives the notifications.
    pub fn qobject(&self) -> (qobject: usize)
        ensures
            qobject == self.target(),
    {
        self.qobject
    }

    /// Hands out the queued notifications, oldest first, and empties the queue.
    pub fn take_calls(&mut self) -> (calls: Vec<ModelCall>)
        ensures
            calls@ == old(self)@,
            final(self)@ == Seq::<ModelCall>::empty(),
            final(self).target() == old(self).target(),
    {
        let mut calls: Vec<ModelCall> = Vec::new();
        std::mem::swap(&mut calls, &mut self.calls);
        calls
    }

    /// Sends `LayoutAboutToBeChanged` to the view.
    pub fn layout_about_to_be_changed(&mut self)
        ensures
            final(self).target() == old(self).target(),
            final(self)@ == old(self)@.push(ModelCall::LayoutAboutToBeChanged),
    {
        self.calls.push(ModelCall::LayoutAboutToBeChanged);
    }

    /// Sends `LayoutChanged` to the view.
    pub fn layout_changed(&mut self)
        ensures
            final(self).target() == old(self).target(),
            final(self)@ == old(self)@.push(ModelCall::LayoutChanged),
    {
        self.calls.push(ModelCall::LayoutChanged);
    }

    /// Sends `DataChanged` to the view.
    pub fn data_changed(&mut self, first: usize, last: usize)
        ensures
            final(self).target() == old(self).target(),
            final(self)@ == old(self)@.push(ModelCall::DataChanged { first, last }),
    {
        self.calls.push(ModelCall::DataChanged { first, last });
    }

    /// Sends `BeginResetModel` to the view.
    pub fn begin_reset_model(&mut self)
        ensures
            final(self).target() == old(self).target(),
            final(self)@ == old(self)@.push(ModelCall::BeginResetModel),
    {
        self.calls.push(ModelCall::BeginResetModel);
    }

    /// Sends `EndResetModel` to the view.
    pub fn end_reset_model(&mut self)
        ensures
            final(self).target() == old(self).target(),
            final(self)@ == old(self)@.push(ModelCall::EndResetModel),
    {
        self.calls.push(ModelCall::EndResetModel);
    }

    /// Sends `BeginInsertRows` to the view.
    pub fn begin_insert_rows(&mut self, first: usize, last: usize)
        ensures
            final(self).target() == old(self).target(),
            final(self)@ == old(self)@.push(ModelCall::BeginInsertRows { first, last }),
    {
        self.calls.push(ModelCall::BeginInsertRows { first, last });
    }

    /// Sends `EndInsertRows` to the view.
    pub fn end_insert_rows(&mut self)
        ensures
            final(self).target() == old(self).target(),
            final(self)@ == old(self)@.push(ModelCall::EndInsertRows),
    {
        self.calls.push(ModelCall::EndInsertRows);
    }

    /// Sends `BeginMoveRows` to the view.
    pub fn begin_move_rows(&mut self, first: usize, last: usize, destination: usize)
        ensures
            final(self).target() == old(self).target(),
            final(self)@ == old(self)@.push(ModelCall::BeginMoveRows { first, last, destination }),
    {
        self.calls.push(ModelCall::BeginMoveRows { first, last, destination });
    }

    /// Sends `EndMoveRows` to the view.
    pub fn end_move_rows(&mut self)
        ensures
            final(self).target() == old(self).target(),
            final(self)@ == old(self)@.push(ModelCall::EndMoveRows),
    {
        self.calls.push(ModelCall::EndMoveRows);
    }

    /// Sends `BeginRemoveRows` to the view.
    pub fn begin_remove_rows(&mut self, first: usize, last: usize)
        ensures
            final(self).target() == old(self).target(),
            final(self)@ == old(self)@.push(ModelCall::BeginRemoveRows { first, last }),
    {
        self.calls.push(ModelCall::BeginRemoveRows { first, last });
    }

    /// Sends `EndRemoveRows` to the view.
    pub fn end_remove_rows(&mut self)
        ensures
            final(self).target() == old(self).target(),
            final(self)@ == old(self)@.push(ModelCall::EndRemoveRows),
    {
        self.calls.push(ModelCall::EndRemoveRows);
    }

}

} // verus!
