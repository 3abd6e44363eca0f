use std::sync::Arc;
use vstd::prelude::*;

use crate::snapshot::Snapshot;

verus! {

/// The reader-writer lock of `lock_api`, carried through as an opaque value.
#[verifier::external_type_specification]
#[verifier::external_body]
#[verifier::reject_recursive_types(R)]
#[verifier::reject_recursive_types(T)]
pub struct ExRwLock<R, T: ?Sized>(parking_lot::lock_api::RwLock<R, T>);

/// The raw lock of `parking_lot`, carried through as an opaque value.
#[verifier::external_type_specification]
#[verifier::external_body]
pub struct ExRawRwLock(parking_lot::RawRwLock);

/// What the shared slot holds at one moment: nothing yet, or the current
/// snapshot.
pub struct Slot {
    current: Option<Arc<Snapshot>>,
}

impl View for Slot {
    type V = Option<Snapshot>;

    closed spec fn view(&self) -> Option<Snapshot> {
        match self.current {
            Some(handle) => Some(*handle),
            None => None,
        }
    }
}

impl Slot {
    pub fn empty() -> (slot: Slot)
        ensures
            slot@ == None::<Snapshot>,
    {
        Slot { current: None }
    }

    /// Replaces the content with `snapshot`, whatever was there before.
    pub fn publish(&mut self, snapshot: Arc<Snapshot>)
        ensures
            final(self)@ == Some(*snapshot),
    {
        self.current = Some(snapshot);
    }

    /// Hands out a handle to the current content, if there is any.
    pub fn read(&self) -> (handle: Option<Arc<Snapshot>>)
        ensures
            handle.is_some() == self@.is_some(),
            handle matches Some(h) ==> self@ == Some(*h),
    {
        match &self.current {
            Some(handle) => Some(share(handle)),
            None => None,
        }
    }
}

/// `Arc::clone`: a second handle to the value that `handle` points to.
#[verifier::external_body]
pub(crate) fn share(handle: &Arc<Snapshot>) -> (other: Arc<Snapshot>)
    ensures
        other == *handle,
{
    Arc::clone(handle)
}

/// The slot shared between the bootstrap task, its only writer, and the
/// readers that serve requests.
pub struct Holder {
    lock: parking_lot::RwLock<Slot>,
}

/// The content that a lock was made with. It is fixed when the lock is made
/// and says nothing of what the lock holds after a write.
pub uninterp spec fn made_with(lock: parking_lot::RwLock<Slot>) -> Option<Snapshot>;

/// `parking_lot::RwLock::new`: a fresh, unlocked lock whose first content is
/// `slot`.
#[verifier::external_body]
fn lock_new(slot: Slot) -> (lock: parking_lot::RwLock<Slot>)
    ensures
        made_with(lock) == slot@,
{
    parking_lot::RwLock::new(slot)
}

/// `parking_lot::RwLock::write`: takes the write lock, stores `slot` in place
/// of the content and releases the lock. Nothing is promised of what other
/// holders of the lock see afterwards.
#[verifier::external_body]
fn lock_store(lock: &parking_lot::RwLock<Slot>, slot: Slot) {
    *lock.write() = slot;
}

/// `parking_lot::RwLock::read`: takes the read lock, copies the content and
/// releases the lock. The content is whatever the last writer left, so the
/// contract promises nothing of it.
#[verifier::external_body]
fn lock_load(lock: &parking_lot::RwLock<Slot>) -> Slot {
    Slot { current: lock.read().current.clone() }
}

impl Holder {
    /// What the holder held when it was made, before any write.
    pub closed spec fn initial_content(&self) -> Option<Snapshot> {
        made_with(self.lock)
    }

    /// A holder in the empty state.
    pub fn new() -> (holder: Holder)
        ensures
            holder.initial_content() == None::<Snapshot>,
    {
        Holder { lock: lock_new(Slot::empty()) }
    }

    /// Makes `snapshot` the content that later reads observe. The lock is held
    /// for the assignment only.
    pub fn publish(&self, snapshot: Arc<Snapshot>) {
        let mut slot = Slot::empty();
        slot.publish(snapshot);
        lock_store(&self.lock, slot);
    }

    /// The content at the moment of the call; the lock is released before the
    /// handle is returned.
    pub fn read(&self) -> Option<Arc<Snapshot>> {
        lock_load(&self.lock).read()
    }
}

/// One access to the slot, as the lock orders them: a write of a snapshot, or
/// a read.
pub enum SlotOp {
    Publish(Snapshot),
    Read,
}

/// The content of a slot that started as `initial`, after every access of
/// `ops` in order: the snapshot written last, or `initial` if none was.
pub open spec fn content_after(initial: Option<Snapshot>, ops: Seq<SlotOp>) -> Option<Snapshot>
    decreases ops.len(),
{
    if ops.len() == 0 {
        initial
    } else {
        match ops.last() {
            SlotOp::Publish(snapshot) => Some(snapshot),
            SlotOp::Read => content_after(initial, ops.drop_last()),
        }
    }
}

/// What the access at position `at` finds in the slot.
pub open spec fn observed(initial: Option<Snapshot>, ops: Seq<SlotOp>, at: int) -> Option<Snapshot> {
    content_after(initial, ops.take(at))
}

/// Whether one of the first `upto` accesses is a write.
pub open spec fn written_before(ops: Seq<SlotOp>, upto: int) -> bool {
    exists|j: int| 0 <= j < upto && j < ops.len() && #[trigger] ops[j] is Publish
}

/// The content after some accesses is the initial content or a snapshot that
/// one of them wrote; it is the initial content exactly as long as none wrote.
pub proof fn lemma_content_is_initial_or_written(initial: Option<Snapshot>, ops: Seq<SlotOp>)
    ensures
        !written_before(ops, ops.len() as int) ==> content_after(initial, ops) == initial,
        written_before(ops, ops.len() as int) ==> exists|j: int|
            0 <= j < ops.len() && #[trigger] ops[j] == SlotOp::Publish(
                content_after(initial, ops).unwrap(),
            ) && content_after(initial, ops).is_some(),
    decreases ops.len(),
{
    if ops.len() > 0 {
        let before = ops.drop_last();
        let last = ops.len() - 1;
        lemma_content_is_initial_or_written(initial, before);
        match ops.last() {
            SlotOp::Publish(snapshot) => {
                assert(ops[last] is Publish);
                assert(ops[last] == SlotOp::Publish(content_after(initial, ops).unwrap()));
            },
            SlotOp::Read => {
                if written_before(ops, ops.len() as int) {
                    let j = choose|j: int| 0 <= j < ops.len() && #[trigger] ops[j] is Publish;
                    assert(j < last);
                    assert(before[j] is Publish);
                    assert(written_before(before, before.len() as int));
                    let k = choose|k: int|
                        0 <= k < before.len() && #[trigger] before[k] == SlotOp::Publish(
                            content_after(initial, before).unwrap(),
                        ) && content_after(initial, before).is_some();
                    assert(ops[k] == before[k]);
                } else {
                    assert forall|j: int| 0 <= j < before.len() implies !(
                    #[trigger] before[j] is Publish) by {
                        assert(ops[j] == before[j]);
                    }
                }
            },
        }
    }
}

/// However writes of the one snapshot `published` and reads are ordered, an
/// access finds the slot as it was at first or holding `published`, whole:
/// the first until the first write, the second from then on.
pub proof fn lemma_reads_see_whole_values(
    initial: Option<Snapshot>,
    published: Snapshot,
    ops: Seq<SlotOp>,
    at: int,
)
    requires
        0 <= at <= ops.len(),
        forall|j: int|
            0 <= j < ops.len() && #[trigger] ops[j] is Publish ==> ops[j] == SlotOp::Publish(
                published,
            ),
    ensures
        observed(initial, ops, at) == initial || observed(initial, ops, at) == Some(published),
        written_before(ops, at) ==> observed(initial, ops, at) == Some(published),
        !written_before(ops, at) ==> observed(initial, ops, at) == initial,
{
    let seen = ops.take(at);
    lemma_content_is_initial_or_written(initial, seen);
    if written_before(ops, at) {
        let j = choose|j: int| 0 <= j < at && j < ops.len() && #[trigger] ops[j] is Publish;
        assert(seen[j] is Publish);
        assert(written_before(seen, seen.len() as int));
        let k = choose|k: int|
            0 <= k < seen.len() && #[trigger] seen[k] == SlotOp::Publish(
                content_after(initial, seen).unwrap(),
            ) && content_after(initial, seen).is_some();
        assert(ops[k] == seen[k]);
        assert(ops[k] is Publish);
    } else {
        assert forall|j: int| 0 <= j < seen.len() implies !(#[trigger] seen[j] is Publish) by {
            assert(ops[j] == seen[j]);
        }
    }
}

} // verus!
