use pollbridge::adapter::PollOutcome;
use pollbridge::adapter::StreamAdapter;
use pollbridge::source::ReadResult;
use pollbridge::source::ScriptedSource;
use pollbridge::source::SourceError;

#[test]
fn three_byte_scenario() {
    // A source that yields 0xAA, 0xBB, 0xCC one byte per attempt, each
    // attempt pausing once before it completes, then signals end-of-data.
    let source = ScriptedSource::new(vec![0xAA, 0xBB, 0xCC], 1, 1);
    let mut adapter = StreamAdapter::new(source);
    let mut out = vec![0u8; 8];

    let expected = [0xAAu8, 0xBB, 0xCC];
    for &byte in &expected {
        assert_eq!(adapter.poll_read(&mut out), PollOutcome::Pending);
        assert!(adapter.is_in_progress());
        assert_eq!(
            adapter.poll_read(&mut out),
            PollOutcome::Ready(ReadResult::Produced(1))
        );
        assert!(adapter.is_idle());
        assert_eq!(out[0], byte);
    }

    // Terminal zero-byte read, again with one pause first.
    assert_eq!(adapter.poll_read(&mut out), PollOutcome::Pending);
    assert_eq!(
        adapter.poll_read(&mut out),
        PollOutcome::Ready(ReadResult::Produced(0))
    );
    assert!(adapter.is_idle());
}

#[test]
fn zero_length_request() {
    let source = ScriptedSource::new(vec![1, 2], 0, 8);
    let mut adapter = StreamAdapter::new(source);

    // A zero-length request completes without blocking and without consuming
    // anything.
    let mut empty: Vec<u8> = Vec::new();
    assert_eq!(
        adapter.poll_read(&mut empty),
        PollOutcome::Ready(ReadResult::Produced(0))
    );
    assert!(adapter.is_idle());

    // The stream is intact afterwards: a real request still gets all bytes.
    let mut out = vec![0u8; 8];
    assert_eq!(
        adapter.poll_read(&mut out),
        PollOutcome::Ready(ReadResult::Produced(2))
    );
    assert_eq!(&out[..2], &[1, 2]);
}

#[test]
fn error_then_retry() {
    // The first completed attempt fails; the retry delivers the whole stream
    // with nothing lost and nothing duplicated.
    let source = ScriptedSource::failing(vec![9, 8, 7], 0, 8, 1, 42);
    let mut adapter = StreamAdapter::new(source);
    let mut out = vec![0u8; 8];

    assert_eq!(
        adapter.poll_read(&mut out),
        PollOutcome::Ready(ReadResult::Failed(SourceError { code: 42 }))
    );
    assert!(adapter.is_idle());

    assert_eq!(
        adapter.poll_read(&mut out),
        PollOutcome::Ready(ReadResult::Produced(3))
    );
    assert_eq!(&out[..3], &[9, 8, 7]);

    assert_eq!(
        adapter.poll_read(&mut out),
        PollOutcome::Ready(ReadResult::Produced(0))
    );
}

#[test]
fn pending_leaves_output_untouched() {
    let source = ScriptedSource::new(vec![5], 2, 8);
    let mut adapter = StreamAdapter::new(source);
    let mut out = vec![0xEEu8; 4];

    assert_eq!(adapter.poll_read(&mut out), PollOutcome::Pending);
    assert_eq!(out, vec![0xEE; 4]);
    assert_eq!(adapter.poll_read(&mut out), PollOutcome::Pending);
    assert_eq!(out, vec![0xEE; 4]);
    assert_eq!(
        adapter.poll_read(&mut out),
        PollOutcome::Ready(ReadResult::Produced(1))
    );
    assert_eq!(out[0], 5);
    assert_eq!(&out[1..], &[0xEE; 3]);
}

#[test]
fn caller_buffer_limits_chunk() {
    let source = ScriptedSource::new(vec![1, 2, 3], 0, 8);
    let mut adapter = StreamAdapter::new(source);
    let mut out = vec![0u8; 2];

    assert_eq!(
        adapter.poll_read(&mut out),
        PollOutcome::Ready(ReadResult::Produced(2))
    );
    assert_eq!(&out[..], &[1, 2]);
    assert_eq!(
        adapter.poll_read(&mut out),
        PollOutcome::Ready(ReadResult::Produced(1))
    );
    assert_eq!(out[0], 3);
    assert_eq!(
        adapter.poll_read(&mut out),
        PollOutcome::Ready(ReadResult::Produced(0))
    );
}

#[test]
fn interleaved_adapters_stay_independent() {
    // Two adapters polled in lockstep deliver exactly their own streams, as
    // if each were driven alone.
    let first = ScriptedSource::new(vec![10, 11, 12], 1, 1);
    let second = ScriptedSource::new(vec![20, 21], 1, 1);
    let mut a = StreamAdapter::new(first);
    let mut b = StreamAdapter::new(second);
    let mut out_a = vec![0u8; 4];
    let mut out_b = vec![0u8; 4];
    let mut got_a: Vec<u8> = Vec::new();
    let mut got_b: Vec<u8> = Vec::new();
    let mut done_a = false;
    let mut done_b = false;

    while !(done_a && done_b) {
        if !done_a {
            if let PollOutcome::Ready(ReadResult::Produced(n)) = a.poll_read(&mut out_a) {
                if n == 0 {
                    done_a = true;
                } else {
                    got_a.extend_from_slice(&out_a[..n]);
                }
            }
        }
        if !done_b {
            if let PollOutcome::Ready(ReadResult::Produced(n)) = b.poll_read(&mut out_b) {
                if n == 0 {
                    done_b = true;
                } else {
                    got_b.extend_from_slice(&out_b[..n]);
                }
            }
        }
    }

    assert_eq!(got_a, vec![10, 11, 12]);
    assert_eq!(got_b, vec![20, 21]);
}
