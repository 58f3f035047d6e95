use std::sync::atomic::AtomicUsize;
use std::sync::Arc;
use vstd::prelude::*;

verus! {

/// One delivery of a signal to the QObject that lived at address `qobject`
/// when the signal was raised.
pub struct Emission<S> {
    pub qobject: usize,
    pub signal: S,
}

/// What the outbox of an emitter becomes when `signal` is raised while the
/// QObject address reads as `qobject` (0 stands for a destroyed QObject).
pub open spec fn after_raise<S>(outbox: Seq<Emission<S>>, qobject: usize, signal: S) -> Seq<Emission<S>> {
    if qobject != 0 {
        outbox.push(Emission { qobject, signal })
    } else {
        outbox
    }
}

/// The outbox grew by a delivery of `signal`, or stayed as it was because the
/// QObject had already been destroyed.
pub open spec fn raised<S>(before: Seq<Emission<S>>, after: Seq<Emission<S>>, signal: S) -> bool {
    exists|qobject: usize| after == #[trigger] after_raise(before, qobject, signal)
}

/// The outbox that raising `signals` in order gives, when the QObject address
/// reads as `qobjects[i]` at the `i`-th raise.
pub open spec fn after_raises<S>(outbox: Seq<Emission<S>>, qobjects: Seq<usize>, signals: Seq<S>) -> Seq<Emission<S>>
    decreases signals.len(),
{
    if signals.len() == 0 || qobjects.len() == 0 {
        outbox
    } else {
        after_raise(
            after_raises(outbox, qobjects.drop_last(), signals.drop_last()),
            qobjects.last(),
            signals.last(),
        )
    }
}

/// The outbox went from `before` to `after` by raising `signals`, in order.
pub open spec fn raised_all<S>(before: Seq<Emission<S>>, after: Seq<Emission<S>>, signals: Seq<S>) -> bool {
    exists|qobjects: Seq<usize>|
        qobjects.len() == signals.len() && after == #[trigger] after_raises(before, qobjects, signals)
}

/// Raising one more signal extends a run of raised signals.
pub proof fn lemma_raised_more<S>(
    before: Seq<Emission<S>>,
    mid: Seq<Emission<S>>,
    after: Seq<Emission<S>>,
    signals: Seq<S>,
    signal: S,
)
    requires
        raised_all(before, mid, signals),
        raised(mid, after, signal),
    ensures
        raised_all(before, after, signals.push(signal)),
{
    let qs = choose|qobjects: Seq<usize>|
        qobjects.len() == signals.len() && mid == #[trigger] after_raises(before, qobjects, signals);
    let q = choose|qobject: usize| after == #[trigger] after_raise(mid, qobject, signal);
    let more = signals.push(signal);
    let qm = qs.push(q);
    assert(more.drop_last() =~= signals);
    assert(qm.drop_last() =~= qs);
    assert(after == after_raises(before, qm, more));
}

/// Raising nothing leaves the outbox as it is.
pub proof fn lemma_raised_none<S>(outbox: Seq<Emission<S>>)
    ensures
        raised_all(outbox, outbox, Seq::<S>::empty()),
{
    assert(outbox == after_raises(outbox, Seq::<usize>::empty(), Seq::<S>::empty()));
}

/// Raising one signal is a run of one.
pub proof fn lemma_raised_one<S>(before: Seq<Emission<S>>, after: Seq<Emission<S>>, signal: S)
    requires
        raised(before, after, signal),
    ensures
        raised_all(before, after, seq![signal]),
{
    lemma_raised_none(before);
    lemma_raised_more(before, before, after, Seq::<S>::empty(), signal);
    assert(Seq::<S>::empty().push(signal) =~= seq![signal]);
}

/// Two runs of raised signals, one after the other, make one run.
pub proof fn lemma_raised_concat<S>(
    before: Seq<Emission<S>>,
    mid: Seq<Emission<S>>,
    after: Seq<Emission<S>>,
    first: Seq<S>,
    second: Seq<S>,
)
    requires
        raised_all(before, mid, first),
        raised_all(mid, after, second),
    ensures
        raised_all(before, after, first + second),
    decreases second.len(),
{
    let qs = choose|qobjects: Seq<usize>|
        qobjects.len() == second.len() && after == #[trigger] after_raises(mid, qobjects, second);
    if second.len() == 0 {
        assert(first + second =~= first);
    } else {
        let rest = second.drop_last();
        let inner = after_raises(mid, qs.drop_last(), rest);
        assert(raised_all(mid, inner, rest));
        lemma_raised_concat(before, mid, inner, first, rest);
        assert(after == after_raise(inner, qs.last(), second.last()));
        assert(raised(inner, after, second.last()));
        lemma_raised_more(before, inner, after, first + rest, second.last());
        assert((first + rest).push(second.last()) =~= first + second);
    }
}

/// Queues `signal` for the QObject at address `qobject`, unless that address is null.
pub fn queue_signal<S>(outbox: &mut Vec<Emission<S>>, qobject: usize, signal: S)
    ensures
        final(outbox)@ == after_raise(old(outbox)@, qobject, signal),
{
    if qobject != 0 {
        outbox.push(Emission { qobject, signal });
    }
}

/// A notification from a list model to its view: the calls that Qt's
/// `QAbstractItemModel` expects around changes of rows and data.
#[derive(Clone, Copy, Debug, PartialEq, Eq)]
pub enum ModelCall {
    LayoutAboutToBeChanged,
    LayoutChanged,
    DataChanged { first: usize, last: usize },
    BeginResetModel,
    EndResetModel,
    BeginInsertRows { first: usize, last: usize },
    EndInsertRows,
    BeginMoveRows { first: usize, last: usize, destination: usize },
    EndMoveRows,
    BeginRemoveRows { first: usize, last: usize },
    EndRemoveRows,
}

/// What the queue of a list model becomes when `call` is made while the model's
/// QObject address is `qobject` (a null address drops the call).
pub open spec fn after_call(calls: Seq<ModelCall>, qobject: usize, call: ModelCall) -> Seq<ModelCall> {
    if qobject != 0 {
        calls.push(call)
    } else {
        calls
    }
}

/// What the queue of a list model becomes when the calls `made` are sent, in
/// order, while the model's QObject address is `qobject`.
pub open spec fn after_calls(calls: Seq<ModelCall>, qobject: usize, made: Seq<ModelCall>) -> Seq<ModelCall> {
    if qobject != 0 {
        calls + made
    } else {
        calls
    }
}

/// Sending no call leaves the queue as it is.
pub proof fn lemma_calls_none(calls: Seq<ModelCall>, qobject: usize)
    ensures
        after_calls(calls, qobject, Seq::<ModelCall>::empty()) == calls,
{
    assert(calls + Seq::<ModelCall>::empty() =~= calls);
}

/// One more call extends the calls sent.
pub proof fn lemma_calls_push(calls: Seq<ModelCall>, qobject: usize, made: Seq<ModelCall>, call: ModelCall)
    ensures
        after_call(after_calls(calls, qobject, made), qobject, call) == after_calls(calls, qobject, made.push(call)),
{
    assert((calls + made).push(call) =~= calls + made.push(call));
}

/// Two runs of calls, one after the other, make one run.
pub proof fn lemma_calls_concat(calls: Seq<ModelCall>, qobject: usize, first: Seq<ModelCall>, second: Seq<ModelCall>)
    ensures
        after_calls(after_calls(calls, qobject, first), qobject, second) == after_calls(calls, qobject, first + second),
{
    assert(calls + first + second =~= calls + (first + second));
}

/// Queues `call` for the view at address `qobject`, unless that address is null.
pub fn queue_call(calls: &mut Vec<ModelCall>, qobject: usize, call: ModelCall)
    ensures
        final(calls)@ == after_call(old(calls)@, qobject, call),
{
    if qobject != 0 {
        calls.push(call);
    }
}

/// Reads the address of the QObject that a shared handle points at.
pub fn load_qobject(handle: &Arc<AtomicUsize>) -> usize {
    handle.load(std::sync::atomic::Ordering::SeqCst)
}

/// Marks the QObject behind a shared handle as destroyed, for every clone of the handle.
pub fn clear_qobject(handle: &Arc<AtomicUsize>) {
    handle.store(0, std::sync::atomic::Ordering::SeqCst);
}

/// A fresh shared handle to the QObject at address `qobject`.
pub fn new_qobject(qobject: usize) -> Arc<AtomicUsize> {
    Arc::new(AtomicUsize::new(qobject))
}

/// Another handle to the same QObject cell.
pub fn share_qobject(handle: &Arc<AtomicUsize>) -> Arc<AtomicUsize> {
    handle.clone()
}

} // verus!
