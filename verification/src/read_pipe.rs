//! The consumer side of the read direction, and the steps of the
//! background read pump. The pump pushes what the transport yields as
//! chunks, an empty chunk being the end-of-stream sentinel; the consumer
//! serves callers from a leftover cursor before consulting the queue, and
//! latches permanent end-of-stream once the sentinel is consumed.
use vstd::prelude::*;
use std::sync::Arc;
use crate::errors::ErrKind;
use crate::errors::recorded_or_broken;
use crate::queue::Queue;
use crate::slot::ErrorSlot;

verus! {

/// The engine-facing reader: a shared queue that the background read pump
/// fills, the slot where that pump records why it stopped, a non-blocking
/// toggle, the end-of-stream latch, and the cursor of bytes popped but not
/// yet served.
pub struct ReadPipe {
    eof: bool,
    nb: bool,
    queue: Arc<Queue>,
    errs: Arc<ErrorSlot>,
    cursor: Vec<u8>,
    pos: usize,
}

impl ReadPipe {
    /// Whether the end-of-stream sentinel has been consumed: from then on
    /// every read reports zero bytes without consulting the queue.
    pub closed spec fn at_eof(&self) -> bool {
        self.eof
    }

    /// Whether reads refuse to wait on an empty queue.
    pub closed spec fn nb_mode(&self) -> bool {
        self.nb
    }

    /// The bytes popped from the queue but not yet served to a caller.
    pub closed spec fn cursor_rest(&self) -> Seq<u8> {
        self.cursor@.skip(self.pos as int)
    }

    /// The cursor position never passes the end of the cursor buffer.
    pub closed spec fn wf(&self) -> bool {
        self.pos <= self.cursor@.len()
    }

    /// The shared queue handle.
    pub closed spec fn spec_queue(&self) -> Arc<Queue> {
        self.queue
    }

    /// The shared error-slot handle.
    pub closed spec fn spec_errs(&self) -> Arc<ErrorSlot> {
        self.errs
    }

    /// A fresh consumer in blocking mode, with its own queue and error
    /// slot. The caller hands duplicates of both to the background pump it
    /// spawns.
    pub fn new() -> (r: Self)
        ensures
            r.wf(),
            !r.at_eof(),
            !r.nb_mode(),
            r.cursor_rest() == Seq::<u8>::empty(),
    {
        let r = ReadPipe {
            eof: false,
            nb: false,
            queue: Arc::new(Queue::new()),
            errs: Arc::new(ErrorSlot::new()),
            cursor: Vec::new(),
            pos: 0,
        };
        proof {
            assert(r.cursor_rest() =~= Seq::<u8>::empty());
        }
        r
    }

    /// Sets or clears non-blocking mode. The facade sets it around each
    /// engine read and must clear it again even when the read fails, or
    /// unrelated writes through the same adapter would misbehave.
    pub fn nb(&mut self, value: bool)
        requires
            old(self).wf(),
        ensures
            final(self).wf(),
            final(self).nb_mode() == value,
            final(self).at_eof() == old(self).at_eof(),
            final(self).cursor_rest() == old(self).cursor_rest(),
            final(self).spec_queue() == old(self).spec_queue(),
            final(self).spec_errs() == old(self).spec_errs(),
    {
        self.nb = value;
    }

    /// A second handle to the internal queue, for the pump and for the
    /// facade's waiting.
    pub fn dup_queue(&self) -> (r: Arc<Queue>)
        ensures
            r == self.spec_queue(),
    {
        crate::arc_dup(&self.queue)
    }

    /// A second handle to the internal error slot, for the pump.
    pub fn dup_errs(&self) -> (r: Arc<ErrorSlot>)
        ensures
            r == self.spec_errs(),
    {
        crate::arc_dup(&self.errs)
    }

    /// The terminal error of this direction: kills the queue, then reports
    /// what the pump recorded, or a broken pipe when it recorded nothing.
    pub fn fetch_err(&self) -> ErrKind {
        self.queue.kill();
        recorded_or_broken(self.errs.get())
    }

    /// How many leftover bytes the cursor still holds.
    fn cursor_len(&self) -> (n: usize)
        requires
            self.wf(),
        ensures
            n == self.cursor_rest().len(),
    {
        self.cursor.len() - self.pos
    }

    /// Serves up to `max` bytes from the front of the cursor.
    fn take_from_cursor(&mut self, max: usize) -> (r: Vec<u8>)
        requires
            old(self).wf(),
        ensures
            final(self).wf(),
            final(self).at_eof() == old(self).at_eof(),
            final(self).nb_mode() == old(self).nb_mode(),
            final(self).spec_queue() == old(self).spec_queue(),
            final(self).spec_errs() == old(self).spec_errs(),
            max <= old(self).cursor_rest().len() ==> {
                &&& r@ == old(self).cursor_rest().take(max as int)
                &&& final(self).cursor_rest() == old(self).cursor_rest().skip(max as int)
            },
            max > old(self).cursor_rest().len() ==> {
                &&& r@ == old(self).cursor_rest()
                &&& final(self).cursor_rest().len() == 0
            },
    {
        let clen = self.cursor.len();
        let avail = clen - self.pos;
        let n = if max < avail {
            max
        } else {
            avail
        };
        let mut out: Vec<u8> = Vec::new();
        let mut i: usize = 0;
        while i < n
            invariant
                i <= n,
                self.wf(),
                clen == self.cursor@.len(),
                self.pos + n <= clen,
                out@ == self.cursor@.subrange(self.pos as int, self.pos + i),
            decreases n - i,
        {
            let b = self.cursor[self.pos + i];
            out.push(b);
            i = i + 1;
            proof {
                assert(out@ =~= self.cursor@.subrange(self.pos as int, self.pos + i));
            }
        }
        self.pos = self.pos + n;
        proof {
            if max <= old(self).cursor_rest().len() {
                assert(out@ =~= old(self).cursor_rest().take(max as int));
                assert(self.cursor_rest() =~= old(self).cursor_rest().skip(max as int));
            } else {
                assert(out@ =~= old(self).cursor_rest());
            }
        }
        out
    }

    /// Takes one chunk popped from the queue: an empty chunk is the
    /// end-of-stream sentinel and latches permanent end-of-stream; any
    /// other becomes the new cursor.
    fn accept_chunk(&mut self, data: Vec<u8>)
        requires
            old(self).wf(),
        ensures
            final(self).wf(),
            final(self).nb_mode() == old(self).nb_mode(),
            final(self).spec_queue() == old(self).spec_queue(),
            final(self).spec_errs() == old(self).spec_errs(),
            data@.len() == 0 ==> {
                &&& final(self).at_eof()
                &&& final(self).cursor_rest() == old(self).cursor_rest()
            },
            data@.len() > 0 ==> {
                &&& final(self).cursor_rest() == data@
                &&& final(self).at_eof() == old(self).at_eof()
            },
    {
        if data.len() == 0 {
            self.eof = true;
        } else {
            self.cursor = data;
            self.pos = 0;
            proof {
                assert(self.cursor_rest() =~= self.cursor@);
            }
        }
    }

    /// One read of up to `max` bytes of plaintext-side data. Leftover
    /// cursor bytes are served first; only an empty cursor consults the
    /// queue, popping at most one chunk. An empty result means permanent
    /// end-of-stream (or `max == 0`). In non-blocking mode an empty, alive
    /// queue yields `WouldBlock` instead of waiting. A queue failure kills
    /// the direction and surfaces the pump's recorded error; an elapsed
    /// internal poll bound is surfaced as a non-fatal `TimedOut` instead.
    pub fn read(&mut self, max: usize) -> (r: Result<Vec<u8>, ErrKind>)
        requires
            old(self).wf(),
        ensures
            final(self).wf(),
            final(self).nb_mode() == old(self).nb_mode(),
            final(self).spec_queue() == old(self).spec_queue(),
            final(self).spec_errs() == old(self).spec_errs(),
            r matches Ok(d) ==> d@.len() <= max,
            old(self).at_eof() ==> {
                &&& *final(self) == *old(self)
                &&& r matches Ok(d) && d@.len() == 0
            },
            max == 0 ==> {
                &&& *final(self) == *old(self)
                &&& r matches Ok(d) && d@.len() == 0
            },
            (!old(self).at_eof() && 0 < max <= old(self).cursor_rest().len()) ==> {
                &&& r matches Ok(d) && d@ == old(self).cursor_rest().take(max as int)
                &&& final(self).cursor_rest() == old(self).cursor_rest().skip(max as int)
                &&& final(self).at_eof() == old(self).at_eof()
            },
            (!old(self).at_eof() && max > 0 && 0 < old(self).cursor_rest().len() < max) ==> {
                &&& r matches Ok(d) && d@ == old(self).cursor_rest()
                &&& final(self).cursor_rest().len() == 0
                &&& final(self).at_eof() == old(self).at_eof()
            },
            (max > 0 && (r matches Ok(d) && d@.len() == 0)) ==> final(self).at_eof(),
            r matches Err(e) ==> *final(self) == *old(self),
    {
        if self.eof || max == 0 {
            return Ok(Vec::new());
        }
        if self.cursor_len() > 0 {
            return Ok(self.take_from_cursor(max));
        }
        let popped: Vec<u8> = if self.nb {
            match self.queue.try_pop() {
                Ok(Some(d)) => d,
                Ok(None) => {
                    return Err(ErrKind::WouldBlock);
                },
                Err(e) => {
                    self.errs.set(e);
                    return Err(self.fetch_err());
                },
            }
        } else {
            match self.queue.pop() {
                Ok(d) => d,
                Err(e) => {
                    if e == ErrKind::TimedOut {
                        // The internal poll bound elapsed: non-fatal, so it
                        // is surfaced as is, without ending the direction.
                        return Err(e);
                    }
                    self.errs.set(e);
                    return Err(self.fetch_err());
                },
            }
        };
        self.accept_chunk(popped);
        if self.eof {
            return Ok(Vec::new());
        }
        Ok(self.take_from_cursor(max))
    }
}

/// Whether the read pump keeps running, given what the push of its latest
/// chunk came to: exactly when the queue accepted the chunk and the chunk
/// carried data — the empty end-of-stream sentinel and every refused push
/// end the pump.
pub fn pump_continue(pushed: Result<(), ErrKind>, chunk_len: usize) -> (more: bool)
    ensures
        more == (pushed is Ok && chunk_len > 0),
{
    match pushed {
        Ok(()) => chunk_len > 0,
        Err(_) => false,
    }
}

/// One turn of the background read pump after a successful transport read:
/// `data` is what arrived, empty meaning end of stream. The pump pushes it
/// as one chunk, sentinel included, records why a push was refused, and
/// keeps running exactly as `pump_continue` decides.
pub fn read_pump_chunk(queue: &Queue, errs: &ErrorSlot, data: Vec<u8>) -> (more: bool)
    ensures
        more ==> data@.len() > 0,
{
    let n = data.len();
    let pushed = queue.push(data);
    if let Err(e) = pushed {
        errs.set(e);
    }
    pump_continue(pushed, n)
}

} // verus!
