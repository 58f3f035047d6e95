//! Signal emitters and list models of the `reply_width_calc` Qt objects.

use crate::signal::{clear_qobject, new_qobject, share_qobject};
use std::sync::atomic::AtomicUsize;
use std::sync::Arc;
use vstd::prelude::*;

verus! {

/// Marker for the Qt object behind a `ReplyWidthCalc` model; its address is what the emitters carry.
pub struct ReplyWidthCalcQObject;

/// The emitter of a `ReplyWidthCalc` object, which raises no signals of its own; it holds
/// the QObject address that clones share.
pub struct ReplyWidthCalcEmitter {
    qobject: Arc<AtomicUsize>,
}

impl ReplyWidthCalcEmitter {
    /// An emitter for the QObject at address `qobject`.
    pub fn new(qobject: usize) -> (emitter: ReplyWidthCalcEmitter) {
        ReplyWidthCalcEmitter { qobject: new_qobject(qobject) }
    }

    /// Clones the emitter: the clone shares the QObject address.
    pub fn clone(&mut self) -> (cloned: ReplyWidthCalcEmitter) {
        ReplyWidthCalcEmitter { qobject: share_qobject(&self.qobject) }
    }

    /// Marks the QObject as destroyed for every clone.
    pub fn clear(&self) {
        clear_qobject(&self.qobject);
    }
}

} // verus!
