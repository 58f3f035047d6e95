//! Signal emitters and list models of the `utils` Qt objects.

use crate::signal::{clear_qobject, new_qobject, share_qobject};
use std::sync::atomic::AtomicUsize;
use std::sync::Arc;
use vstd::prelude::*;

verus! {

/// Marker for the Qt object behind a `Utils` model; its address is what the emitters carry.
pub struct UtilsQObject;

/// The emitter of a `Utils` object, which raises no signals of its own; it holds
/// the QObject address that clones share.
pub struct UtilsEmitter {
    qobject: Arc<AtomicUsize>,
}

impl UtilsEmitter {
    /// An emitter for the QObject at address `qobject`.
    pub fn new(qobject: usize) -> (emitter: UtilsEmitter) {
        UtilsEmitter { qobject: new_qobject(qobject) }
    }

    /// Clones the emitter: the clone shares the QObject address.
    pub fn clone(&mut self) -> (cloned: UtilsEmitter) {
        UtilsEmitter { qobject: share_qobject(&self.qobject) }
    }

    /// Marks the QObject as destroyed for every clone.
    pub fn clear(&self) {
        clear_qobject(&self.qobject);
    }
}

} // verus!
