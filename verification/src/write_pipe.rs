//! The producer side of the write direction, and the steps of the
//! background write pump. The pipe enqueues each write as one chunk and
//! reports it written at once; the pump drains the queue and performs the
//! real blocking writes on its own thread.
use vstd::prelude::*;
use std::sync::Arc;
use crate::errors::ErrKind;
use crate::errors::recorded_or_broken;
use crate::queue::Queue;
use crate::slot::ErrorSlot;

verus! {

/// The handle the engine-facing adapter writes through: a shared queue that
/// the background write pump drains, and the slot where that pump records
/// why it died.
pub struct WritePipe {
    queue: Arc<Queue>,
    errs: Arc<ErrorSlot>,
}

impl WritePipe {
    /// The shared queue handle.
    pub closed spec fn spec_queue(&self) -> Arc<Queue> {
        self.queue
    }

    /// The shared error-slot handle.
    pub closed spec fn spec_errs(&self) -> Arc<ErrorSlot> {
        self.errs
    }

    /// A fresh producer with its own queue and error slot. The caller hands
    /// duplicates of both to the background pump it spawns.
    pub fn new() -> (r: Self) {
        WritePipe { queue: Arc::new(Queue::new()), errs: Arc::new(ErrorSlot::new()) }
    }

    /// A second handle to the internal queue, for the pump and for the
    /// facade's flow control.
    pub fn dup_queue(&self) -> (r: Arc<Queue>)
        ensures
            r == self.spec_queue(),
    {
        crate::arc_dup(&self.queue)
    }

    /// A second handle to the internal error slot, for the pump.
    pub fn dup_errs(&self) -> (r: Arc<ErrorSlot>)
        ensures
            r == self.spec_errs(),
    {
        crate::arc_dup(&self.errs)
    }

    /// The terminal error of this direction: kills the queue, then reports
    /// what the pump recorded, or a broken pipe when it recorded nothing.
    pub fn fetch_err(&self) -> ErrKind {
        self.queue.kill();
        recorded_or_broken(self.errs.get())
    }

    /// Enqueues the whole buffer as one chunk and reports its full length
    /// as written at once: writes are fire-and-forget from the engine's
    /// point of view. Fails once the queue has died, with the pump's
    /// recorded error; an elapsed internal poll bound is surfaced as a
    /// non-fatal `TimedOut` instead.
    pub fn write(&self, data: Vec<u8>) -> (r: Result<usize, ErrKind>)
        ensures
            r matches Ok(n) ==> n == data@.len(),
    {
        let n = data.len();
        match self.queue.push(data) {
            Ok(()) => Ok(n),
            Err(e) => {
                if e == ErrKind::TimedOut {
                    // The internal poll bound elapsed: non-fatal, so it is
                    // surfaced as is, without ending the direction.
                    Err(e)
                } else {
                    self.errs.set(e);
                    Err(self.fetch_err())
                }
            },
        }
    }

    /// Deliberately a no-op for the transport: waiting here would stall the
    /// thread that also serves reads. The facade flushes by draining the
    /// queue directly.
    pub fn flush(&self) -> (r: Result<(), ErrKind>)
        ensures
            r is Ok,
    {
        Ok(())
    }
}

/// The write pump's hand-on decision, given what the pop came to: a popped
/// chunk goes to the transport whole; a pop failure ends the pump.
pub fn pump_hand_on(popped: Result<Vec<u8>, ErrKind>) -> (r: Option<Vec<u8>>)
    ensures
        popped matches Ok(d) ==> r == Some(d),
        popped matches Err(e) ==> r is None,
{
    match popped {
        Ok(d) => Some(d),
        Err(_) => None,
    }
}

/// One turn of the background write pump: the next chunk to write fully to
/// the transport, or nothing once the queue has died, the death reason then
/// recorded in the slot; the hand-on itself is exactly `pump_hand_on`.
pub fn write_pump_next(queue: &Queue, errs: &ErrorSlot) -> (r: Option<Vec<u8>>) {
    let popped = queue.pop();
    if let Err(e) = &popped {
        errs.set(*e);
    }
    pump_hand_on(popped)
}

} // verus!
