use rust_tls_duplex_stream::errors::ErrKind;
use rust_tls_duplex_stream::queue::FlushStep;
use rust_tls_duplex_stream::queue::PopStep;
use rust_tls_duplex_stream::queue::PushAttempt;
use rust_tls_duplex_stream::queue::Queue;
use rust_tls_duplex_stream::queue::QueueState;
use rust_tls_duplex_stream::queue::HIGH_WATERMARK;
use rust_tls_duplex_stream::queue::LOW_WATERMARK;

#[test]
fn push_pop_keeps_fifo_order() {
    let q = Queue::new();
    q.push(vec![1u8, 2, 3]).unwrap();
    q.push(vec![4u8]).unwrap();
    q.push(vec![]).unwrap();
    assert_eq!(q.pop().unwrap(), vec![1u8, 2, 3]);
    assert_eq!(q.pop().unwrap(), vec![4u8]);
    assert_eq!(q.pop().unwrap(), Vec::<u8>::new());
}

#[test]
fn try_pop_on_empty_alive_queue_is_none() {
    let q = Queue::new();
    assert!(matches!(q.try_pop(), Ok(None)));
}

#[test]
fn try_pop_on_empty_dead_queue_is_broken_pipe() {
    let q = Queue::new();
    q.kill();
    assert!(matches!(q.try_pop(), Err(ErrKind::BrokenPipe)));
}

#[test]
fn pop_drains_chunks_buffered_before_death() {
    let q = Queue::new();
    q.push(vec![9u8, 8]).unwrap();
    q.kill();
    assert_eq!(q.pop().unwrap(), vec![9u8, 8]);
    assert!(matches!(q.pop(), Err(ErrKind::BrokenPipe)));
}

#[test]
fn push_on_dead_queue_is_broken_pipe() {
    let q = Queue::new();
    q.kill();
    assert!(matches!(q.push(vec![1u8]), Err(ErrKind::BrokenPipe)));
}

#[test]
fn kill_is_idempotent() {
    let q = Queue::new();
    q.kill();
    q.kill();
    assert!(matches!(q.try_pop(), Err(ErrKind::BrokenPipe)));
    assert!(matches!(q.push(vec![1u8]), Err(ErrKind::BrokenPipe)));
}

#[test]
fn every_waiter_fails_after_kill() {
    let q = Queue::new();
    q.kill();
    assert!(matches!(q.flush_low(None), Err(ErrKind::BrokenPipe)));
    assert!(matches!(q.flush_zero(), Err(ErrKind::BrokenPipe)));
    assert!(matches!(q.await_pop(None), Err(ErrKind::BrokenPipe)));
    assert!(matches!(q.pop(), Err(ErrKind::BrokenPipe)));
}

#[test]
fn flush_low_returns_at_once_when_drained() {
    let q = Queue::new();
    q.push(vec![1u8]).unwrap();
    assert!(q.flush_low(Some(1000)).is_ok());
}

#[test]
fn flush_zero_returns_at_once_when_empty() {
    let q = Queue::new();
    assert!(q.flush_zero().is_ok());
}

#[test]
fn flush_low_times_out_above_the_low_watermark() {
    let q = Queue::new();
    for _ in 0..(LOW_WATERMARK + 1) {
        q.push(vec![0u8]).unwrap();
    }
    let start = std::time::Instant::now();
    assert!(matches!(q.flush_low(Some(60)), Err(ErrKind::TimedOut)));
    assert!(start.elapsed().as_millis() >= 60);
}

#[test]
fn await_pop_returns_at_once_when_data_waits() {
    let q = Queue::new();
    q.push(vec![5u8]).unwrap();
    assert!(q.await_pop(Some(1000)).is_ok());
    // Waiting consumes nothing: the chunk is still there.
    assert_eq!(q.pop().unwrap(), vec![5u8]);
}

#[test]
fn await_pop_times_out_no_sooner_than_asked() {
    let q = Queue::new();
    let start = std::time::Instant::now();
    assert!(matches!(q.await_pop(Some(120)), Err(ErrKind::TimedOut)));
    let waited = start.elapsed().as_millis();
    assert!(waited >= 120);
    assert!(waited < 10_000);
}

#[test]
fn push_fills_to_one_past_the_high_watermark() {
    let q = Queue::new();
    // A push goes through when at most HIGH_WATERMARK chunks are buffered,
    // so exactly HIGH_WATERMARK + 1 pushes go through without waiting.
    for _ in 0..(HIGH_WATERMARK + 1) {
        q.push(vec![0u8]).unwrap();
    }
    q.kill();
    let mut drained = 0usize;
    while let Ok(_) = q.pop() {
        drained += 1;
    }
    assert_eq!(drained, HIGH_WATERMARK + 1);
}

#[test]
fn state_flush_decision_matches_the_watermarks() {
    let mut st = QueueState::new();
    assert_eq!(st.flush_ready(0), FlushStep::Ready);
    st.enqueue(vec![1u8]);
    assert_eq!(st.flush_ready(0), FlushStep::Busy);
    assert_eq!(st.flush_ready(1), FlushStep::Ready);
    st.mark_dead();
    assert_eq!(st.flush_ready(1), FlushStep::Dead);
    assert_eq!(st.flush_ready(0), FlushStep::Dead);
}

#[test]
fn state_pop_decision_drains_before_death() {
    let mut st = QueueState::new();
    assert_eq!(st.pop_readiness(), PopStep::Empty);
    st.enqueue(vec![1u8]);
    st.mark_dead();
    assert_eq!(st.pop_readiness(), PopStep::Available);
    assert_eq!(st.dequeue(), Some(vec![1u8]));
    assert_eq!(st.pop_readiness(), PopStep::Dead);
    assert_eq!(st.dequeue(), None);
}

#[test]
fn push_on_dead_queue_enqueues_nothing() {
    let q = Queue::new();
    q.push(vec![1u8]).unwrap();
    q.kill();
    assert!(matches!(q.push(vec![2u8]), Err(ErrKind::BrokenPipe)));
    // Only the chunk buffered before death is there to drain.
    assert_eq!(q.pop().unwrap(), vec![1u8]);
    assert!(matches!(q.pop(), Err(ErrKind::BrokenPipe)));
}

#[test]
fn state_push_step_decides_dead_accepted_and_full() {
    let mut st = QueueState::new();
    assert!(matches!(st.push_step(vec![1u8]), PushAttempt::Pushed));
    assert_eq!(st.len(), 1);
    for _ in 0..HIGH_WATERMARK {
        st.enqueue(vec![0u8]);
    }
    // Over the high watermark: the chunk comes back untouched.
    assert_eq!(st.len(), HIGH_WATERMARK + 1);
    match st.push_step(vec![7u8, 8]) {
        PushAttempt::Full(d) => assert_eq!(d, vec![7u8, 8]),
        _ => panic!("expected the chunk back"),
    }
    assert_eq!(st.len(), HIGH_WATERMARK + 1);
    st.mark_dead();
    assert!(matches!(st.push_step(vec![9u8]), PushAttempt::Dead));
    assert_eq!(st.len(), HIGH_WATERMARK + 1);
}

#[test]
fn state_dequeue_returns_oldest_first() {
    let mut st = QueueState::new();
    st.enqueue(vec![1u8]);
    st.enqueue(vec![2u8]);
    st.enqueue(vec![3u8]);
    assert_eq!(st.len(), 3);
    assert_eq!(st.dequeue(), Some(vec![1u8]));
    assert_eq!(st.dequeue(), Some(vec![2u8]));
    assert_eq!(st.dequeue(), Some(vec![3u8]));
    assert_eq!(st.dequeue(), None);
    assert!(!st.killed());
}
