use qwen_session::capture::{emit_stream_chunk, read_stream_to_string, StreamChunkPayload};
use qwen_session::jobs::{active_headless_jobs, ActiveHeadlessJobGuard};
use qwen_session::manager::{qwen_status, TransportProbe};
use std::sync::atomic::AtomicUsize;
use std::sync::Arc;

#[test]
fn captured_bytes_become_text() {
    assert_eq!(read_stream_to_string(Some("warning: café\n".as_bytes().to_vec())), "warning: café\n");
    assert_eq!(read_stream_to_string(Some(Vec::new())), "");
}

#[test]
fn invalid_bytes_give_the_empty_text() {
    assert_eq!(read_stream_to_string(Some(vec![b'o', b'k', 0xff])), "");
    assert_eq!(read_stream_to_string(Some(vec![0xc3])), "");
    assert_eq!(read_stream_to_string(Some(vec![0xed, 0xa0, 0x80])), "");
}

#[test]
fn failed_read_gives_the_empty_text() {
    assert_eq!(read_stream_to_string(None), "");
}

#[test]
fn empty_chunk_is_not_delivered() {
    assert_eq!(emit_stream_chunk(1, String::new()), None);
    assert_eq!(
        emit_stream_chunk(2, "x".to_string()),
        Some(StreamChunkPayload { round_id: 2, chunk: "x".to_string() })
    );
    assert_eq!(
        emit_stream_chunk(0, " ".to_string()),
        Some(StreamChunkPayload { round_id: 0, chunk: " ".to_string() })
    );
}

#[test]
fn guard_counts_for_as_long_as_it_lives() {
    let counter = Arc::new(AtomicUsize::new(0));
    assert_eq!(active_headless_jobs(&counter), 0);
    assert!(!qwen_status(TransportProbe::Pipe { active_jobs: active_headless_jobs(&counter) }).running);
    {
        let _first = ActiveHeadlessJobGuard::new(counter.clone());
        assert_eq!(active_headless_jobs(&counter), 1);
        {
            let _second = ActiveHeadlessJobGuard::new(counter.clone());
            assert_eq!(active_headless_jobs(&counter), 2);
        }
        assert_eq!(active_headless_jobs(&counter), 1);
        assert!(qwen_status(TransportProbe::Pipe { active_jobs: active_headless_jobs(&counter) }).running);
    }
    assert_eq!(active_headless_jobs(&counter), 0);
}

#[test]
fn guard_releases_on_early_return() {
    fn work(counter: Arc<AtomicUsize>, fail: bool) -> Result<usize, String> {
        let _guard = ActiveHeadlessJobGuard::new(counter.clone());
        if fail {
            return Err("stopped".to_string());
        }
        Ok(active_headless_jobs(&counter))
    }
    let counter = Arc::new(AtomicUsize::new(0));
    assert_eq!(work(counter.clone(), false), Ok(1));
    assert_eq!(work(counter.clone(), true), Err("stopped".to_string()));
    assert_eq!(active_headless_jobs(&counter), 0);
}
