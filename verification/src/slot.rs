//! The write-once terminal-error slot a pump shares with its foreground
//! side: set at most once by whoever sees the first error, read many times.
use vstd::prelude::*;
use vstd::rwlock::RwLock;
use vstd::rwlock::RwLockPredicate;
use crate::errors::ErrKind;

verus! {

/// What recording an error does to the slot: the first recorded error
/// sticks, every later one is dropped.
pub open spec fn slot_after_set(cur: Option<ErrKind>, e: ErrKind) -> Option<ErrKind> {
    if cur is None {
        Some(e)
    } else {
        cur
    }
}

/// The pure step of `ErrorSlot::set`, applied to the value under the lock.
fn store_once(cur: Option<ErrKind>, e: ErrKind) -> (r: Option<ErrKind>)
    ensures
        r == slot_after_set(cur, e),
{
    match cur {
        None => Some(e),
        Some(first) => Some(first),
    }
}

/// The slot's lock constrains nothing beyond well-typedness.
pub struct SlotPred {}

impl RwLockPredicate<Option<ErrKind>> for SlotPred {
    open spec fn inv(self, v: Option<ErrKind>) -> bool {
        true
    }
}

/// A thread-safe error cell that keeps the first error recorded in it. A
/// pump records why it died; the foreground side reads the reason later.
/// Absence of a value after death means the pump ended without recording
/// one, which callers treat as a broken pipe.
pub struct ErrorSlot {
    lock: RwLock<Option<ErrKind>, SlotPred>,
}

impl ErrorSlot {
    /// A fresh, empty slot.
    pub fn new() -> (r: Self) {
        ErrorSlot { lock: RwLock::new(None, Ghost(SlotPred {})) }
    }

    /// Records `e` unless an error was recorded before; the first wins.
    pub fn set(&self, e: ErrKind) {
        let (cur, h) = self.lock.acquire_write();
        h.release_write(store_once(cur, e));
    }

    /// The recorded error, if any was recorded yet.
    pub fn get(&self) -> Option<ErrKind> {
        let h = self.lock.acquire_read();
        let r = *h.borrow();
        h.release_read();
        r
    }
}

/// Recording is write-once: after a first error lands in the slot, a later
/// recording leaves the first in place.
pub proof fn lemma_slot_write_once(a: ErrKind, b: ErrKind)
    ensures
        slot_after_set(slot_after_set(Option::<ErrKind>::None, a), b) == Some(a),
{
}

} // verus!
