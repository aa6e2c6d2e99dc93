//! The bounded, double-watermarked chunk queue with a terminal dead state.
//!
//! `QueueState` is the sequential heart: the buffered chunks and the dead
//! flag, with every transition specified exactly. `Queue` wraps it in a
//! verified lock and gives the blocking operations the pumps and the facade
//! call from many threads at once.
use vstd::prelude::*;
use vstd::rwlock::RwLock;
use vstd::rwlock::RwLockPredicate;
use std::collections::VecDeque;
use crate::clock;
use crate::errors::ErrKind;

verus! {

/// How many times a waiting loop looks at the queue before it gives up with
/// a timeout of its own. At one nanosecond per look this bound lies
/// centuries away; it exists so that every waiting loop provably makes
/// progress toward an exit.
pub const SPIN_LIMIT: u64 = u64::MAX;

/// Once more than this many chunks sit in the queue, producers are held back.
pub const HIGH_WATERMARK: usize = 8096;

/// Bulk writers wait until the queue drains to this length or below, so
/// engine control traffic is never stuck behind a long backlog of data.
pub const LOW_WATERMARK: usize = 4096;

/// Everything the queue's lock guards: the buffered chunks, oldest first,
/// and the flag that marks the queue as permanently dead.
pub struct QueueState {
    buf: VecDeque<Vec<u8>>,
    dead: bool,
}

/// What one look at the state tells a waiter that wants the queue drained
/// to some length.
#[derive(Clone, Copy, Debug, PartialEq, Eq, Structural)]
pub enum FlushStep {
    /// Alive and drained to the requested length: the wait is over.
    Ready,
    /// Dead: the wait fails with a broken pipe, drained or not.
    Dead,
    /// Alive but still too full: the waiter must look again.
    Busy,
}

impl QueueState {
    /// The buffered chunks in queue order, oldest first.
    pub closed spec fn chunks(&self) -> Seq<Vec<u8>> {
        self.buf@
    }

    /// Whether the queue has been marked dead.
    pub closed spec fn is_dead(&self) -> bool {
        self.dead
    }

    /// The invariant the queue's lock maintains: a producer appends only
    /// after seeing at most `HIGH_WATERMARK` chunks, so the length never
    /// passes one past the high watermark.
    pub open spec fn wf(&self) -> bool {
        self.chunks().len() <= HIGH_WATERMARK + 1
    }

    /// A fresh queue state: empty and alive.
    pub fn new() -> (st: Self)
        ensures
            st.chunks() == Seq::<Vec<u8>>::empty(),
            !st.is_dead(),
            st.wf(),
    {
        QueueState { buf: VecDeque::new(), dead: false }
    }

    /// How many chunks are buffered.
    pub fn len(&self) -> (n: usize)
        ensures
            n == self.chunks().len(),
    {
        self.buf.len()
    }

    /// Whether the queue has been marked dead.
    pub fn killed(&self) -> (b: bool)
        ensures
            b == self.is_dead(),
    {
        self.dead
    }

    /// Marks the queue dead. The buffered chunks stay: consumers may still
    /// drain them. No transition ever clears the flag, so death is permanent.
    pub fn mark_dead(&mut self)
        ensures
            *final(self) == spec_after_kill(*old(self)),
            final(self).is_dead(),
            final(self).chunks() == old(self).chunks(),
            old(self).wf() ==> final(self).wf(),
    {
        self.dead = true;
    }

    /// Appends one chunk. The producer must have seen the high-watermark
    /// gate open: at most `HIGH_WATERMARK` chunks buffered.
    pub fn enqueue(&mut self, data: Vec<u8>)
        requires
            old(self).chunks().len() <= HIGH_WATERMARK,
        ensures
            final(self).chunks() == old(self).chunks().push(data),
            final(self).is_dead() == old(self).is_dead(),
            final(self).wf(),
    {
        self.buf.push_back(data);
    }

    /// Removes and returns the oldest chunk, or nothing when the buffer is
    /// empty. Works on a dead queue too: what was buffered before death is
    /// still handed out.
    pub fn dequeue(&mut self) -> (r: Option<Vec<u8>>)
        ensures
            old(self).chunks().len() > 0 ==> {
                &&& r == Some(old(self).chunks()[0])
                &&& final(self).chunks() == old(self).chunks().drop_first()
            },
            old(self).chunks().len() == 0 ==> {
                &&& r is None
                &&& final(self).chunks() == old(self).chunks()
            },
            final(self).is_dead() == old(self).is_dead(),
            old(self).wf() ==> final(self).wf(),
    {
        let r = self.buf.pop_front();
        proof {
            if old(self).chunks().len() > 0 {
                assert(final(self).chunks() =~= old(self).chunks().drop_first());
            }
        }
        r
    }

    /// One look at the state on behalf of a waiter that wants the queue
    /// drained to `count` chunks or fewer. Death dominates: a dead queue
    /// answers `Dead` even when already drained.
    pub fn flush_ready(&self, count: usize) -> (r: FlushStep)
        ensures
            r == flush_decision(*self, count),
    {
        if self.dead {
            FlushStep::Dead
        } else if self.buf.len() <= count {
            FlushStep::Ready
        } else {
            FlushStep::Busy
        }
    }

    /// One look at the state on behalf of a waiter that wants a chunk.
    /// Data dominates: chunks buffered before death are still handed out.
    pub fn pop_readiness(&self) -> (r: PopStep)
        ensures
            r == pop_decision(*self),
    {
        if self.buf.len() > 0 {
            PopStep::Available
        } else if self.dead {
            PopStep::Dead
        } else {
            PopStep::Empty
        }
    }

    /// One attempt to append `data`: refused outright on a dead queue with
    /// nothing appended; held back, the chunk handed back untouched, while
    /// more than `HIGH_WATERMARK` chunks are buffered; appended otherwise.
    pub fn push_step(&mut self, data: Vec<u8>) -> (r: PushAttempt)
        ensures
            push_decision(*old(self)) is Accepted ==> {
                &&& r is Pushed
                &&& final(self).chunks() == old(self).chunks().push(data)
                &&& final(self).is_dead() == old(self).is_dead()
            },
            push_decision(*old(self)) is Dead ==> {
                &&& r is Dead
                &&& *final(self) == *old(self)
            },
            push_decision(*old(self)) is Full ==> {
                &&& r matches PushAttempt::Full(d) && d == data
                &&& *final(self) == *old(self)
            },
            old(self).wf() ==> final(self).wf(),
    {
        if self.dead {
            PushAttempt::Dead
        } else if self.buf.len() <= HIGH_WATERMARK {
            self.enqueue(data);
            PushAttempt::Pushed
        } else {
            PushAttempt::Full(data)
        }
    }
}

/// The decision one look at the state yields for a waiter that wants the
/// queue drained to `count` chunks or fewer: death dominates drained-ness.
pub open spec fn flush_decision(st: QueueState, count: usize) -> FlushStep {
    if st.is_dead() {
        FlushStep::Dead
    } else if st.chunks().len() <= count {
        FlushStep::Ready
    } else {
        FlushStep::Busy
    }
}

/// The decision one look at the state yields for a waiter that wants a
/// chunk: buffered data dominates death.
pub open spec fn pop_decision(st: QueueState) -> PopStep {
    if st.chunks().len() > 0 {
        PopStep::Available
    } else if st.is_dead() {
        PopStep::Dead
    } else {
        PopStep::Empty
    }
}

/// The state a kill leaves behind: the same chunks, the dead flag set.
pub closed spec fn spec_after_kill(st: QueueState) -> QueueState {
    QueueState { dead: true, ..st }
}

/// The decision one look at the state yields for a producer that wants to
/// append a chunk: death dominates, then the high-watermark gate.
pub open spec fn push_decision(st: QueueState) -> PushStep {
    if st.is_dead() {
        PushStep::Dead
    } else if st.chunks().len() <= HIGH_WATERMARK {
        PushStep::Accepted
    } else {
        PushStep::Full
    }
}

/// What one look at the state tells a producer with a chunk to append.
#[derive(Clone, Copy, Debug, PartialEq, Eq, Structural)]
pub enum PushStep {
    /// Alive and at or below the high watermark: the chunk is appended.
    Accepted,
    /// Dead: the push fails with a broken pipe and appends nothing.
    Dead,
    /// Alive but over the high watermark: the producer must wait.
    Full,
}

/// What one look at the state tells a waiter that wants to pop a chunk.
#[derive(Clone, Copy, Debug, PartialEq, Eq, Structural)]
pub enum PopStep {
    /// At least one chunk is buffered: a pop would succeed.
    Available,
    /// Empty and dead: no chunk will ever arrive.
    Dead,
    /// Empty but alive: the waiter must look again.
    Empty,
}

/// What one locked attempt to append a chunk came to.
pub enum PushAttempt {
    /// The chunk was appended and all is well.
    Pushed,
    /// The queue is dead; the chunk was not appended.
    Dead,
    /// The high-watermark gate is shut; the chunk comes back to the caller
    /// untouched, to be offered again.
    Full(Vec<u8>),
}

/// The invariant the queue's lock carries: every state it stores is
/// well-formed.
pub struct QueuePred {}

impl RwLockPredicate<QueueState> for QueuePred {
    open spec fn inv(self, st: QueueState) -> bool {
        st.wf()
    }
}

/// The thread-safe bounded queue: a verified lock around `QueueState`, plus
/// the blocking operations the pumps and the facade call. Every wait is a
/// polling loop: it looks at the state under the lock, decides with the
/// exactly-specified `QueueState` transitions, and otherwise releases the
/// lock and spins.
pub struct Queue {
    lock: RwLock<QueueState, QueuePred>,
}

impl Queue {
    /// A fresh queue: empty, alive, with the watermark invariant installed
    /// on the lock.
    pub fn new() -> (q: Self)
    {
        Queue { lock: RwLock::new(QueueState::new(), Ghost(QueuePred {})) }
    }

    /// Idempotently marks the queue dead and thereby releases every waiter:
    /// each waiting loop observes the flag on its next look.
    pub fn kill(&self) {
        let (mut st, h) = self.lock.acquire_write();
        st.mark_dead();
        h.release_write(st);
    }

    /// One locked look on behalf of a flush waiter.
    fn flush_probe(&self, count: usize) -> FlushStep {
        let h = self.lock.acquire_read();
        let r = h.borrow().flush_ready(count);
        h.release_read();
        r
    }

    /// One locked look on behalf of a pop waiter.
    fn pop_probe(&self) -> PopStep {
        let h = self.lock.acquire_read();
        let r = h.borrow().pop_readiness();
        h.release_read();
        r
    }

    /// Waits until the queue is drained to `count` chunks or fewer, or is
    /// dead, or `timeout_ms` elapses. Death dominates: a dead queue fails
    /// with `BrokenPipe` even when already drained.
    fn flush_count(&self, count: usize, timeout_ms: Option<u64>) -> (r: Result<(), ErrKind>)
        ensures
            r matches Err(e) ==> (e == ErrKind::BrokenPipe || e == ErrKind::TimedOut),
    {
        let start = clock::now();
        let mut spins: u64 = SPIN_LIMIT;
        loop
            decreases spins,
        {
            match self.flush_probe(count) {
                FlushStep::Ready => {
                    return Ok(());
                },
                FlushStep::Dead => {
                    return Err(ErrKind::BrokenPipe);
                },
                FlushStep::Busy => {
                    if let Some(ms) = timeout_ms {
                        if clock::timed_out_since(&start, ms) {
                            return Err(ErrKind::TimedOut);
                        }
                    }
                    if spins == 0 {
                        return Err(ErrKind::TimedOut);
                    }
                    spins = spins - 1;
                    clock::spin_hint();
                },
            }
        }
    }

    /// Waits until the queue length falls to the low watermark or below.
    /// Bulk writers call this before enqueueing new data, so engine control
    /// messages are never starved behind a backlog.
    pub fn flush_low(&self, timeout_ms: Option<u64>) -> (r: Result<(), ErrKind>)
        ensures
            r matches Err(e) ==> (e == ErrKind::BrokenPipe || e == ErrKind::TimedOut),
    {
        self.flush_count(LOW_WATERMARK, timeout_ms)
    }

    /// Waits until the queue is completely empty: every buffered chunk has
    /// been handed to the pump. Has no caller-facing timeout.
    pub fn flush_zero(&self) -> (r: Result<(), ErrKind>)
        ensures
            r matches Err(e) ==> (e == ErrKind::BrokenPipe || e == ErrKind::TimedOut),
    {
        self.flush_count(0, None)
    }

    /// Waits until at least one chunk could be popped, without popping it,
    /// or until the queue is dead or `timeout_ms` elapses. The caller must
    /// hold no other lock while waiting; the facade releases its engine
    /// lock first, which is the whole point of this primitive.
    pub fn await_pop(&self, timeout_ms: Option<u64>) -> (r: Result<(), ErrKind>)
        ensures
            r matches Err(e) ==> (e == ErrKind::BrokenPipe || e == ErrKind::TimedOut),
    {
        let start = clock::now();
        let mut spins: u64 = SPIN_LIMIT;
        loop
            decreases spins,
        {
            match self.pop_probe() {
                PopStep::Available => {
                    return Ok(());
                },
                PopStep::Dead => {
                    return Err(ErrKind::BrokenPipe);
                },
                PopStep::Empty => {
                    if let Some(ms) = timeout_ms {
                        if clock::timed_out_since(&start, ms) {
                            return Err(ErrKind::TimedOut);
                        }
                    }
                    if spins == 0 {
                        return Err(ErrKind::TimedOut);
                    }
                    spins = spins - 1;
                    clock::spin_hint();
                },
            }
        }
    }

    /// Pops the oldest chunk immediately if one is buffered; reports `None`
    /// on an empty but alive queue, and `BrokenPipe` on an empty dead one.
    pub fn try_pop(&self) -> (r: Result<Option<Vec<u8>>, ErrKind>)
        ensures
            r matches Err(e) ==> e == ErrKind::BrokenPipe,
    {
        let (mut st, h) = self.lock.acquire_write();
        let popped = st.dequeue();
        match popped {
            Some(d) => {
                h.release_write(st);
                Ok(Some(d))
            },
            None => {
                let dead = st.killed();
                h.release_write(st);
                if dead {
                    Err(ErrKind::BrokenPipe)
                } else {
                    Ok(None)
                }
            },
        }
    }

    /// Waits until one chunk could be popped and returns it, oldest first.
    /// Chunks buffered before death are still drained; only an empty dead
    /// queue fails with `BrokenPipe`.
    pub fn pop(&self) -> (r: Result<Vec<u8>, ErrKind>)
        ensures
            r matches Err(e) ==> (e == ErrKind::BrokenPipe || e == ErrKind::TimedOut),
    {
        let mut spins: u64 = SPIN_LIMIT;
        loop
            decreases spins,
        {
            match self.try_pop() {
                Ok(Some(d)) => {
                    return Ok(d);
                },
                Ok(None) => {
                    if spins == 0 {
                        return Err(ErrKind::TimedOut);
                    }
                    spins = spins - 1;
                    clock::spin_hint();
                },
                Err(e) => {
                    return Err(e);
                },
            }
        }
    }

    /// One locked attempt to append, deciding and acting with the exactly
    /// specified `QueueState::push_step`.
    fn try_push_once(&self, data: Vec<u8>) -> (r: PushAttempt)
        ensures
            r matches PushAttempt::Full(d) ==> d == data,
    {
        let (mut st, h) = self.lock.acquire_write();
        let r = st.push_step(data);
        h.release_write(st);
        r
    }

    /// Appends one chunk, waiting while the high-watermark gate is shut.
    /// Fails with `BrokenPipe` if the queue is or becomes dead while
    /// waiting. The wait has no caller-facing timeout.
    pub fn push(&self, data: Vec<u8>) -> (r: Result<(), ErrKind>)
        ensures
            r matches Err(e) ==> (e == ErrKind::BrokenPipe || e == ErrKind::TimedOut),
    {
        let mut chunk = data;
        let mut spins: u64 = SPIN_LIMIT;
        loop
            decreases spins,
        {
            match self.try_push_once(chunk) {
                PushAttempt::Pushed => {
                    return Ok(());
                },
                PushAttempt::Dead => {
                    return Err(ErrKind::BrokenPipe);
                },
                PushAttempt::Full(d) => {
                    chunk = d;
                    if spins == 0 {
                        return Err(ErrKind::TimedOut);
                    }
                    spins = spins - 1;
                    clock::spin_hint();
                },
            }
        }
    }
}

/// At the moment a push returns, the queue holds at most one chunk past
/// the high watermark, since `try_push_once` appends only when at most
/// `HIGH_WATERMARK` chunks are buffered; a push that went through strictly
/// below the watermark leaves the queue at or below the watermark itself.
pub proof fn lemma_push_bounded(st: QueueState, data: Vec<u8>, post: QueueState)
    requires
        st.chunks().len() <= HIGH_WATERMARK,
        post.chunks() == st.chunks().push(data),
    ensures
        post.chunks().len() <= HIGH_WATERMARK + 1,
        st.chunks().len() < HIGH_WATERMARK ==> post.chunks().len() <= HIGH_WATERMARK,
{
}

/// A flush wait ends successfully exactly when the queue is drained to the
/// requested length while alive — `flush_low` asks for the low watermark,
/// `flush_zero` for zero — and ends with a broken pipe exactly when the
/// queue is dead.
pub proof fn lemma_flush_ends_drained_or_dead(st: QueueState, count: usize)
    ensures
        (flush_decision(st, count) is Ready) <==> (!st.is_dead() && st.chunks().len() <= count),
        (flush_decision(st, count) is Dead) <==> st.is_dead(),
{
}

/// A dead queue refuses every waiter at its next look: producers and flush
/// waiters outright — a push fails with a broken pipe and appends nothing,
/// by `push_step`'s contract — and pop waiters as soon as the chunks
/// buffered before death are drained. Death is permanent: no `QueueState`
/// transition clears the flag, as the transition contracts state.
pub proof fn lemma_dead_queue_refuses(st: QueueState, count: usize)
    requires
        st.is_dead(),
    ensures
        push_decision(st) is Dead,
        flush_decision(st, count) is Dead,
        st.chunks().len() == 0 ==> pop_decision(st) is Dead,
        st.chunks().len() > 0 ==> pop_decision(st) is Available,
{
}

/// Killing is idempotent and loses no data: it sets the dead flag, keeps
/// every buffered chunk for consumers to drain, and a second kill changes
/// nothing at all.
pub proof fn lemma_kill_idempotent_keeps_chunks(st: QueueState)
    ensures
        spec_after_kill(st).is_dead(),
        spec_after_kill(st).chunks() == st.chunks(),
        spec_after_kill(spec_after_kill(st)) == spec_after_kill(st),
        st.is_dead() ==> spec_after_kill(st) == st,
{
}

/// Chunks travel whole and in order: after appending `a` and then `b` to
/// any buffer, the drain order reaches every byte of `a` before any byte
/// of `b`, each chunk intact.
pub proof fn lemma_fifo_chunks(st: QueueState, a: Vec<u8>, b: Vec<u8>)
    ensures
        st.chunks().push(a).push(b)[st.chunks().len() as int] == a,
        st.chunks().push(a).push(b)[st.chunks().len() as int + 1] == b,
{
}

} // verus!
