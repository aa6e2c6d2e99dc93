//! Transport plumbing for a full-duplex secure-channel stream: a bounded,
//! double-watermarked chunk queue with a dead state, the consumer and
//! producer pipes that background pumps feed, and the decision logic the
//! duplex facade uses to multiplex reads and writes over one engine instance.
use vstd::prelude::*;

pub mod clock;
pub mod errors;
pub mod queue;
pub mod read_pipe;
pub mod slot;
pub mod write_pipe;

use std::sync::Arc;
use crate::errors::ErrKind;
use crate::read_pipe::ReadPipe;
use crate::write_pipe::WritePipe;

verus! {

/// Relies on Arc::clone: the returned handle refers to the same allocation
/// and is therefore the same value.
#[verifier::external_body]
pub(crate) fn arc_dup<T>(a: &Arc<T>) -> (r: Arc<T>)
    ensures
        r == *a,
{
    Arc::clone(a)
}

/// The single byte stream the protocol engine drives: reads served by the
/// read pipe's consumer side, writes and flushes taken by the write pipe's
/// producer side.
pub struct CombinedPipe(pub ReadPipe, pub WritePipe);

impl CombinedPipe {
    /// Joins the two pipe halves into the one stream the engine sees.
    pub fn new(read: ReadPipe, write: WritePipe) -> (r: Self)
        ensures
            r.0 == read,
            r.1 == write,
    {
        CombinedPipe(read, write)
    }

    /// One engine-side read of up to `max` bytes, with `ReadPipe::read`'s
    /// contract carried through whole; the write half is untouched.
    pub fn read(&mut self, max: usize) -> (r: Result<Vec<u8>, ErrKind>)
        requires
            old(self).0.wf(),
        ensures
            final(self).0.wf(),
            final(self).1 == old(self).1,
            final(self).0.nb_mode() == old(self).0.nb_mode(),
            final(self).0.spec_queue() == old(self).0.spec_queue(),
            final(self).0.spec_errs() == old(self).0.spec_errs(),
            r matches Ok(d) ==> d@.len() <= max,
            old(self).0.at_eof() ==> {
                &&& final(self).0 == old(self).0
                &&& r matches Ok(d) && d@.len() == 0
            },
            max == 0 ==> {
                &&& final(self).0 == old(self).0
                &&& r matches Ok(d) && d@.len() == 0
            },
            (!old(self).0.at_eof() && 0 < max <= old(self).0.cursor_rest().len()) ==> {
                &&& r matches Ok(d) && d@ == old(self).0.cursor_rest().take(max as int)
                &&& final(self).0.cursor_rest() == old(self).0.cursor_rest().skip(max as int)
                &&& final(self).0.at_eof() == old(self).0.at_eof()
            },
            (!old(self).0.at_eof() && max > 0 && 0 < old(self).0.cursor_rest().len() < max) ==> {
                &&& r matches Ok(d) && d@ == old(self).0.cursor_rest()
                &&& final(self).0.cursor_rest().len() == 0
                &&& final(self).0.at_eof() == old(self).0.at_eof()
            },
            (max > 0 && (r matches Ok(d) && d@.len() == 0)) ==> final(self).0.at_eof(),
            r matches Err(e) ==> final(self).0 == old(self).0,
    {
        self.0.read(max)
    }

    /// One engine-side write; see `WritePipe::write`.
    pub fn write(&self, data: Vec<u8>) -> (r: Result<usize, ErrKind>)
        ensures
            r matches Ok(n) ==> n == data@.len(),
    {
        self.1.write(data)
    }

    /// An engine-side flush; a no-op, see `WritePipe::flush`.
    pub fn flush(&self) -> (r: Result<(), ErrKind>)
        ensures
            r is Ok,
    {
        self.1.flush()
    }
}

/// How the facade's read loop proceeds after one engine read attempt, made
/// with the adapter toggled into non-blocking mode so that an empty queue
/// cannot stall the engine while its lock is held.
#[derive(Clone, Copy, Debug, PartialEq, Eq, Structural)]
pub enum ReadStep {
    /// The engine produced plaintext: hand the count to the caller.
    Done(usize),
    /// The error is the caller's: either the caller asked for non-blocking
    /// reads, or the error is not a would-block and ends the attempt.
    Surface(ErrKind),
    /// A would-block in blocking mode: release the engine lock, wait on
    /// the read queue, and try again.
    AwaitData,
}

/// The facade's read decision: a success is done; with the caller's
/// non-blocking flag set, every error surfaces at once; a would-block
/// otherwise means wait for queue data and retry; anything else surfaces.
pub fn read_step(non_blocking: bool, attempt: Result<usize, ErrKind>) -> (r: ReadStep)
    ensures
        attempt matches Ok(n) ==> r == ReadStep::Done(n),
        attempt matches Err(e) ==> {
            &&& non_blocking ==> r == ReadStep::Surface(e)
            &&& (!non_blocking && e == ErrKind::WouldBlock) ==> r == ReadStep::AwaitData
            &&& (!non_blocking && e != ErrKind::WouldBlock) ==> r == ReadStep::Surface(e)
        },
{
    match attempt {
        Ok(n) => ReadStep::Done(n),
        Err(e) => {
            if non_blocking {
                ReadStep::Surface(e)
            } else if e == ErrKind::WouldBlock {
                ReadStep::AwaitData
            } else {
                ReadStep::Surface(e)
            }
        },
    }
}

} // verus!
