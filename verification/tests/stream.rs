//! Behavior of the seekable byte source: chunk delivery, the three seek
//! cases, end-of-stream handling, backpressure, and header parsing.

use miu_player::stream::FetchCursor;
use miu_player::stream::FetchStep;
use miu_player::stream::OpenAction;
use miu_player::stream::PrefetchTuner;
use miu_player::stream::ReadOutcome;
use miu_player::stream::SeekEffect;
use miu_player::stream::SeekTarget;
use miu_player::stream::StreamError;
use miu_player::stream::StreamSource;
use miu_player::stream::PREFETCH_CAPACITY;
use miu_player::stream::parse_content_range;
use miu_player::stream::total_length_from_headers;

fn opened(offset: u64, total: Option<u64>) -> StreamSource {
    let mut s = StreamSource::new();
    s.connection_opened(offset, total);
    s
}

fn read_bytes(s: &mut StreamSource, max: usize) -> Vec<u8> {
    match s.read(max) {
        Ok(ReadOutcome::Bytes(b)) => b,
        other => panic!("expected bytes, got {:?}", other),
    }
}

#[test]
fn read_serves_chunks_in_order() {
    let mut s = opened(0, Some(100));
    assert!(s.accept_chunk(vec![1, 2, 3]));
    assert!(s.accept_chunk(vec![4, 5]));
    assert_eq!(read_bytes(&mut s, 2), vec![1, 2]);
    // A read never crosses a chunk boundary.
    assert_eq!(read_bytes(&mut s, 10), vec![3]);
    assert_eq!(read_bytes(&mut s, 10), vec![4, 5]);
    assert_eq!(s.position, 5);
    assert!(matches!(s.read(1), Ok(ReadOutcome::Pending)));
}

#[test]
fn empty_chunks_are_dropped() {
    let mut s = opened(0, None);
    assert!(s.accept_chunk(Vec::new()));
    assert!(matches!(s.read(1), Ok(ReadOutcome::Pending)));
}

#[test]
fn local_seek_moves_only_the_cursor() {
    let mut s = opened(0, Some(100));
    assert!(s.accept_chunk(vec![10, 11, 12, 13, 14, 15, 16, 17, 18, 19]));
    assert_eq!(read_bytes(&mut s, 4), vec![10, 11, 12, 13]);
    // Forward inside the window.
    assert!(matches!(s.seek(SeekTarget::Start(8)), Ok(SeekEffect::Done(8))));
    assert_eq!(s.position, 8);
    assert_eq!(read_bytes(&mut s, 1), vec![18]);
    // Backward inside the window, into already-consumed bytes.
    assert!(matches!(s.seek(SeekTarget::Start(2)), Ok(SeekEffect::Done(2))));
    assert_eq!(read_bytes(&mut s, 2), vec![12, 13]);
    // Relative addressing stays local too.
    assert!(matches!(s.seek(SeekTarget::Current(-4)), Ok(SeekEffect::Done(0))));
    assert_eq!(read_bytes(&mut s, 1), vec![10]);
}

#[test]
fn cold_seek_discards_buffers_and_asks_for_one_reopen() {
    let mut s = opened(0, Some(1000));
    assert!(s.accept_chunk(vec![1, 2, 3, 4]));
    assert!(s.accept_chunk(vec![5, 6]));
    assert_eq!(read_bytes(&mut s, 2), vec![1, 2]);
    match s.seek(SeekTarget::Start(500)) {
        Ok(SeekEffect::Reopen(o)) => assert_eq!(o, 500),
        other => panic!("expected a reopen, got {:?}", other),
    }
    assert_eq!(s.position, 500);
    assert_eq!(s.prefetch.len(), 0);
    assert_eq!(s.buffer.len(), 0);
    // The caller reopens and the stream continues at the new offset.
    s.connection_opened(500, Some(1000));
    assert!(s.accept_chunk(vec![9]));
    assert_eq!(read_bytes(&mut s, 1), vec![9]);
    assert_eq!(s.position, 501);
}

#[test]
fn eof_reads_are_idempotent() {
    let mut s = opened(0, Some(4));
    assert!(s.accept_chunk(vec![7, 7, 7, 7]));
    assert_eq!(read_bytes(&mut s, 4), vec![7, 7, 7, 7]);
    assert!(matches!(s.seek(SeekTarget::Start(4)), Ok(SeekEffect::Done(4))));
    for _ in 0..5 {
        assert!(matches!(s.read(64), Ok(ReadOutcome::End)));
        assert!(matches!(s.seek(SeekTarget::End(0)), Ok(SeekEffect::Done(4))));
        assert!(matches!(s.seek(SeekTarget::Start(4)), Ok(SeekEffect::Done(4))));
    }
    assert!(matches!(s.read(64), Ok(ReadOutcome::End)));
    assert_eq!(s.position, 4);
}

#[test]
fn backpressure_refuses_the_sixth_chunk() {
    let mut s = opened(0, None);
    for i in 0..PREFETCH_CAPACITY {
        assert!(s.accept_chunk(vec![i as u8]));
    }
    // The queue is at capacity: the producer must suspend.
    assert!(!s.accept_chunk(vec![99]));
    assert_eq!(s.prefetch.len(), PREFETCH_CAPACITY);
    // One read drains a chunk and the same offer is taken.
    assert_eq!(read_bytes(&mut s, 8), vec![0]);
    assert!(s.accept_chunk(vec![99]));
    assert_eq!(s.prefetch.len(), PREFETCH_CAPACITY);
}

#[test]
fn open_request_handles_the_known_end() {
    let mut s = opened(0, Some(10));
    assert!(matches!(s.open_request(3), Ok(OpenAction::Request(3))));
    assert!(matches!(s.open_request(10), Ok(OpenAction::AlreadyAtEnd)));
    assert!(matches!(s.read(1), Ok(ReadOutcome::End)));
    assert!(matches!(s.open_request(11), Err(StreamError::InvalidSeekTarget)));
}

#[test]
fn seek_errors() {
    let mut s = opened(0, None);
    // End-relative seeks need the total length first.
    assert!(matches!(s.seek(SeekTarget::End(-1)), Err(StreamError::LengthUnknown)));
    s.record_probed_length(Some(10));
    assert!(matches!(s.seek(SeekTarget::End(-2)), Ok(SeekEffect::Reopen(8))));
    // Before the start and past the end are fatal.
    let mut s2 = opened(0, Some(10));
    assert!(matches!(s2.seek(SeekTarget::Current(-1)), Err(StreamError::InvalidSeekTarget)));
    assert!(matches!(s2.seek(SeekTarget::Start(11)), Err(StreamError::InvalidSeekTarget)));
    assert!(matches!(s2.seek(SeekTarget::End(1)), Err(StreamError::InvalidSeekTarget)));
}

#[test]
fn probed_length_never_overrides_a_known_one() {
    let mut s = opened(0, Some(10));
    s.record_probed_length(Some(99));
    assert_eq!(s.total_length, Some(10));
    let mut s2 = opened(0, None);
    s2.record_probed_length(None);
    assert_eq!(s2.total_length, None);
    s2.record_probed_length(Some(42));
    assert_eq!(s2.total_length, Some(42));
}

#[test]
fn stream_failure_and_end_markers() {
    let mut s = opened(0, None);
    assert!(s.accept_chunk(vec![1]));
    s.note_end();
    // Chunks already queued are still served before the end is reported.
    assert_eq!(read_bytes(&mut s, 4), vec![1]);
    assert!(matches!(s.read(4), Ok(ReadOutcome::End)));

    let mut f = opened(0, None);
    f.note_failure();
    assert!(matches!(f.read(1), Err(StreamError::Failed)));

    // A source with no connection at all cannot produce an end marker.
    let mut fresh = StreamSource::new();
    assert!(matches!(fresh.read(1), Err(StreamError::UnexpectedEof)));
}

#[test]
fn position_overflow_is_an_error() {
    let mut s = opened(u64::MAX - 1, None);
    assert!(s.accept_chunk(vec![7, 7, 7]));
    assert!(matches!(s.read(3), Err(StreamError::PositionOverflow)));
    // One byte still fits.
    assert_eq!(read_bytes(&mut s, 1), vec![7]);
    assert_eq!(s.position, u64::MAX);
}

#[test]
fn fetch_cursor_resumes_after_timeouts_only() {
    let mut c = FetchCursor::new(10);
    c.advance(5);
    assert_eq!(c.offset, 15);
    assert!(matches!(c.on_fetch_error(true), FetchStep::Resume(15)));
    assert!(matches!(c.on_fetch_error(false), FetchStep::Fail));
}

#[test]
fn content_range_parsing() {
    assert_eq!(parse_content_range("bytes 0-99/1234"), Some(1234));
    assert_eq!(parse_content_range("bytes 0-1/ 999 "), Some(999));
    assert_eq!(parse_content_range("bytes 0-99/12/34"), None);
    assert_eq!(parse_content_range("1234"), None);
    assert_eq!(parse_content_range("bytes 0-99/"), None);
    assert_eq!(parse_content_range("bytes 0-99/12x"), None);
    // The largest representable size parses; one past it does not.
    assert_eq!(parse_content_range("bytes 0-0/18446744073709551615"), Some(u64::MAX));
    assert_eq!(parse_content_range("bytes 0-0/18446744073709551616"), None);
}

#[test]
fn total_length_prefers_the_content_range() {
    assert_eq!(total_length_from_headers(Some("bytes 0-0/55"), Some(10)), Some(55));
    assert_eq!(total_length_from_headers(Some("junk"), Some(10)), Some(10));
    assert_eq!(total_length_from_headers(None, Some(10)), Some(10));
    assert_eq!(total_length_from_headers(None, None), None);
}

#[test]
fn latency_estimate_is_clamped() {
    let mut t = PrefetchTuner::new();
    assert_eq!(t.latency_ms, 50);
    t.update_network_latency(5);
    assert_eq!(t.latency_ms, 10);
    t.update_network_latency(900);
    assert_eq!(t.latency_ms, 500);
    t.update_network_latency(120);
    assert_eq!(t.latency_ms, 120);
}

#[test]
fn adaptive_prefetch_depth() {
    let mut t = PrefetchTuner::new();
    t.update_network_latency(50);
    assert_eq!(t.adaptive_prefetch_len(), PREFETCH_CAPACITY);
    t.update_network_latency(150);
    assert_eq!(t.adaptive_prefetch_len(), PREFETCH_CAPACITY + 2);
    t.update_network_latency(300);
    assert_eq!(t.adaptive_prefetch_len(), PREFETCH_CAPACITY * 2);
}

#[test]
fn position_hints_steer_the_buffer_target() {
    let mut t = PrefetchTuner::new();
    assert!(!t.needs_buffer_sync(0));
    // One second of 16-bit stereo at 44100 Hz is 176400 bytes.
    t.update_sse_position(1000);
    assert_eq!(t.buffer_target, 176400 + 3 * 32768);
    assert!(!t.needs_buffer_sync(176400));
    assert!(!t.needs_buffer_sync(176400 + 2 * 32768));
    assert!(t.needs_buffer_sync(0));
    assert!(t.needs_buffer_sync(176400 + 2 * 32768 + 1));
}
