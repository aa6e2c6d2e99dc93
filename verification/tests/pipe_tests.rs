use rust_tls_duplex_stream::errors::ErrKind;
use rust_tls_duplex_stream::read_pipe::pump_continue;
use rust_tls_duplex_stream::read_pipe::read_pump_chunk;
use rust_tls_duplex_stream::read_pipe::ReadPipe;
use rust_tls_duplex_stream::write_pipe::pump_hand_on;
use rust_tls_duplex_stream::write_pipe::write_pump_next;
use rust_tls_duplex_stream::write_pipe::WritePipe;

#[test]
fn non_blocking_read_on_empty_queue_would_block() {
    let mut rp = ReadPipe::new();
    rp.nb(true);
    let start = std::time::Instant::now();
    assert!(matches!(rp.read(10), Err(ErrKind::WouldBlock)));
    // Immediately, not after some wait.
    assert!(start.elapsed().as_millis() < 5_000);
}

#[test]
fn sentinel_makes_every_later_read_report_eof() {
    let mut rp = ReadPipe::new();
    let q = rp.dup_queue();
    q.push(vec![]).unwrap();
    assert_eq!(rp.read(10).unwrap(), Vec::<u8>::new());
    // Even a dead queue no longer matters: reads never consult it again.
    q.kill();
    assert_eq!(rp.read(10).unwrap(), Vec::<u8>::new());
    assert_eq!(rp.read(1).unwrap(), Vec::<u8>::new());
}

#[test]
fn leftover_bytes_are_served_before_the_queue() {
    let mut rp = ReadPipe::new();
    let q = rp.dup_queue();
    q.push(vec![1u8, 2, 3, 4, 5]).unwrap();
    assert_eq!(rp.read(2).unwrap(), vec![1u8, 2]);
    assert_eq!(rp.read(2).unwrap(), vec![3u8, 4]);
    assert_eq!(rp.read(2).unwrap(), vec![5u8]);
    rp.nb(true);
    assert!(matches!(rp.read(2), Err(ErrKind::WouldBlock)));
}

#[test]
fn blocking_read_returns_a_waiting_chunk() {
    let mut rp = ReadPipe::new();
    let q = rp.dup_queue();
    q.push(vec![7u8, 8]).unwrap();
    assert_eq!(rp.read(16).unwrap(), vec![7u8, 8]);
}

#[test]
fn read_of_zero_bytes_is_a_no_op() {
    let mut rp = ReadPipe::new();
    let q = rp.dup_queue();
    q.push(vec![1u8]).unwrap();
    assert_eq!(rp.read(0).unwrap(), Vec::<u8>::new());
    assert_eq!(rp.read(4).unwrap(), vec![1u8]);
}

#[test]
fn read_on_a_killed_queue_is_broken_pipe() {
    let mut rp = ReadPipe::new();
    rp.dup_queue().kill();
    assert!(matches!(rp.read(10), Err(ErrKind::BrokenPipe)));
}

#[test]
fn first_recorded_error_wins_and_surfaces() {
    let mut rp = ReadPipe::new();
    let errs = rp.dup_errs();
    errs.set(ErrKind::Transport(42));
    errs.set(ErrKind::TimedOut);
    rp.dup_queue().kill();
    // The failing read records a broken pipe, but the pump's earlier
    // transport error was first and is the one handed out.
    assert!(matches!(rp.read(10), Err(ErrKind::Transport(42))));
}

#[test]
fn read_pump_keeps_running_until_the_sentinel() {
    let rp = ReadPipe::new();
    let q = rp.dup_queue();
    let errs = rp.dup_errs();
    assert!(read_pump_chunk(&q, &errs, vec![9u8]));
    assert!(!read_pump_chunk(&q, &errs, vec![]));
    assert_eq!(q.pop().unwrap(), vec![9u8]);
    assert_eq!(q.pop().unwrap(), Vec::<u8>::new());
}

#[test]
fn read_pump_stops_and_records_when_the_queue_is_dead() {
    let rp = ReadPipe::new();
    let q = rp.dup_queue();
    let errs = rp.dup_errs();
    q.kill();
    assert!(!read_pump_chunk(&q, &errs, vec![1u8]));
    assert_eq!(errs.get(), Some(ErrKind::BrokenPipe));
}

#[test]
fn write_reports_the_full_length_at_once() {
    let wp = WritePipe::new();
    assert_eq!(wp.write(vec![0x47u8, 0x45, 0x54]).unwrap(), 3);
}

#[test]
fn written_bytes_reach_the_pump_exactly_and_in_order() {
    let wp = WritePipe::new();
    let q = wp.dup_queue();
    let errs = wp.dup_errs();
    wp.write(vec![0x47u8, 0x45, 0x54]).unwrap();
    wp.write(vec![0x0du8, 0x0a]).unwrap();
    // Each write travels as one whole chunk, never interleaved.
    assert_eq!(write_pump_next(&q, &errs), Some(vec![0x47u8, 0x45, 0x54]));
    assert_eq!(write_pump_next(&q, &errs), Some(vec![0x0du8, 0x0a]));
    // With everything handed to the transport, a flush wait is over.
    assert!(q.flush_zero().is_ok());
}

#[test]
fn write_on_a_killed_queue_is_broken_pipe_and_enqueues_nothing() {
    let wp = WritePipe::new();
    let q = wp.dup_queue();
    q.kill();
    assert!(matches!(wp.write(vec![1u8]), Err(ErrKind::BrokenPipe)));
    // The refused write left the queue empty.
    assert!(matches!(q.try_pop(), Err(ErrKind::BrokenPipe)));
}

#[test]
fn pump_continue_runs_exactly_on_accepted_data() {
    assert!(pump_continue(Ok(()), 5));
    assert!(!pump_continue(Ok(()), 0));
    assert!(!pump_continue(Err(ErrKind::BrokenPipe), 5));
    assert!(!pump_continue(Err(ErrKind::TimedOut), 0));
}

#[test]
fn pump_hand_on_forwards_chunks_and_stops_on_errors() {
    assert_eq!(pump_hand_on(Ok(vec![1u8, 2])), Some(vec![1u8, 2]));
    assert_eq!(pump_hand_on(Err(ErrKind::BrokenPipe)), None);
    assert_eq!(pump_hand_on(Err(ErrKind::TimedOut)), None);
}

#[test]
fn transport_flush_is_a_no_op() {
    let wp = WritePipe::new();
    assert!(wp.flush().is_ok());
}

#[test]
fn write_pump_stops_and_records_on_death() {
    let wp = WritePipe::new();
    let q = wp.dup_queue();
    let errs = wp.dup_errs();
    q.kill();
    assert_eq!(write_pump_next(&q, &errs), None);
    assert_eq!(errs.get(), Some(ErrKind::BrokenPipe));
}

#[test]
fn fetch_err_reports_broken_pipe_when_nothing_was_recorded() {
    let wp = WritePipe::new();
    assert_eq!(wp.fetch_err(), ErrKind::BrokenPipe);
    // Fetching also kills the queue.
    assert!(matches!(wp.write(vec![1u8]), Err(ErrKind::BrokenPipe)));
}
