//! Signal emitters and list models of the `config` Qt objects.

use crate::signal::{after_raise, clear_qobject, load_qobject, new_qobject, queue_signal, raised, share_qobject, Emission};
use std::sync::atomic::AtomicUsize;
use std::sync::Arc;
use vstd::prelude::*;

verus! {

/// Marker for the Qt object behind a `Config` model; its address is what the emitters carry.
pub struct ConfigQObject;

/// The signals that a `ConfigEmitter` raises on its QObject.
#[derive(Clone, Copy, Debug, PartialEq, Eq)]
pub enum ConfigSignal {
    ColorChanged,
    ColorschemeChanged,
    ConfigIdChanged,
    NameChanged,
    NtsConversationIdChanged,
    ProfilePictureChanged,
}

/// Raises the signals of a `Config` object on its QObject. The QObject address is
/// shared by every clone of the emitter, so that clearing it (when the object is freed)
/// silences them all; raised signals wait in the outbox until they are delivered.
pub struct ConfigEmitter {
    qobject: Arc<AtomicUsize>,
    outbox: Vec<Emission<ConfigSignal>>,
}

impl View for ConfigEmitter {
    type V = Seq<Emission<ConfigSignal>>;

    closed spec fn view(&self) -> Seq<Emission<ConfigSignal>> {
        self.outbox@
    }
}

impl ConfigEmitter {
    /// An emitter for the QObject at address `qobject`, with nothing raised yet.
    pub fn new(qobject: usize) -> (emitter: ConfigEmitter)
        ensures
            emitter@ == Seq::<Emission<ConfigSignal>>::empty(),
    {
        ConfigEmitter { qobject: new_qobject(qobject), outbox: Vec::new() }
    }

    /// Clones the emitter: the clone shares the QObject address and starts with an
    /// empty outbox.
    pub fn clone(&mut self) -> (cloned: ConfigEmitter)
        ensures
            cloned@ == Seq::<Emission<ConfigSignal>>::empty(),
            final(self)@ == old(self)@,
    {
        ConfigEmitter { qobject: share_qobject(&self.qobject), outbox: Vec::new() }
    }

    /// Marks the QObject as destroyed; from then on no clone raises anything.
    pub fn clear(&self) {
        clear_qobject(&self.qobject);
    }

    /// Hands out the raised signals, oldest first, and empties the outbox.
    pub fn take_pending(&mut self) -> (pending: Vec<Emission<ConfigSignal>>)
        ensures
            pending@ == old(self)@,
            final(self)@ == Seq::<Emission<ConfigSignal>>::empty(),
    {
        let mut pending: Vec<Emission<ConfigSignal>> = Vec::new();
        std::mem::swap(&mut pending, &mut self.outbox);
        pending
    }

    /// Raises `ColorChanged`, unless the QObject is gone.
    pub fn color_changed(&mut self)
        ensures
            raised(old(self)@, final(self)@, ConfigSignal::ColorChanged),
    {
        let qobject = load_qobject(&self.qobject);
        queue_signal(&mut self.outbox, qobject, ConfigSignal::ColorChanged);
        assert(self.outbox@ == after_raise(old(self).outbox@, qobject, ConfigSignal::ColorChanged));
    }

    /// Raises `ColorschemeChanged`, unless the QObject is gone.
    pub fn colorscheme_changed(&mut self)
        ensures
            raised(old(self)@, final(self)@, ConfigSignal::ColorschemeChanged),
    {
        let qobject = load_qobject(&self.qobject);
        queue_signal(&mut self.outbox, qobject, ConfigSignal::ColorschemeChanged);
        assert(self.outbox@ == after_raise(old(self).outbox@, qobject, ConfigSignal::ColorschemeChanged));
    }

    /// Raises `ConfigIdChanged`, unless the QObject is gone.
    pub fn config_id_changed(&mut self)
        ensures
            raised(old(self)@, final(self)@, ConfigSignal::ConfigIdChanged),
    {
        let qobject = load_qobject(&self.qobject);
        queue_signal(&mut self.outbox, qobject, ConfigSignal::ConfigIdChanged);
        assert(self.outbox@ == after_raise(old(self).outbox@, qobject, ConfigSignal::ConfigIdChanged));
    }

    /// Raises `NameChanged`, unless the QObject is gone.
    pub fn name_changed(&mut self)
        ensures
            raised(old(self)@, final(self)@, ConfigSignal::NameChanged),
    {
        let qobject = load_qobject(&self.qobject);
        queue_signal(&mut self.outbox, qobject, ConfigSignal::NameChanged);
        assert(self.outbox@ == after_raise(old(self).outbox@, qobject, ConfigSignal::NameChanged));
    }

    /// Raises `NtsConversationIdChanged`, unless the QObject is gone.
    pub fn nts_conversation_id_changed(&mut self)
        ensures
            raised(old(self)@, final(self)@, ConfigSignal::NtsConversationIdChanged),
    {
        let qobject = load_qobject(&self.qobject);
        queue_signal(&mut self.outbox, qobject, ConfigSignal::NtsConversationIdChanged);
        assert(self.outbox@ == after_raise(old(self).outbox@, qobject, ConfigSignal::NtsConversationIdChanged));
    }

    /// Raises `ProfilePictureChanged`, unless the QObject is gone.
    pub fn profile_picture_changed(&mut self)
        ensures
            raised(old(self)@, final(self)@, ConfigSignal::ProfilePictureChanged),
    {
        let qobject = load_qobject(&self.qobject);
        queue_signal(&mut self.outbox, qobject, ConfigSignal::ProfilePictureChanged);
        assert(self.outbox@ == after_raise(old(self).outbox@, qobject, ConfigSignal::ProfilePictureChanged));
    }

}

} // verus!
