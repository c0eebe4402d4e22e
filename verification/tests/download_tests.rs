use bambooclaw_supervisor::download::DownloadError;
use bambooclaw_supervisor::download::DownloadTask;
use bambooclaw_supervisor::download::ProgressEvent;
use bambooclaw_supervisor::download::TransferState;

/// A simulated transfer: streams the given chunks through the task's
/// ledger, appending each chunk's bytes to a simulated destination file
/// before asking for the next chunk, and collecting the emitted events.
fn stream(
    task: &mut DownloadTask,
    chunks: &[u64],
    file: &mut Vec<u8>,
) -> Result<Vec<ProgressEvent>, DownloadError> {
    let mut events = Vec::new();
    for &len in chunks {
        for _ in 0..len {
            file.push(0xAB);
        }
        events.push(task.on_chunk(len)?);
    }
    Ok(events)
}

fn begin_ok(status: u16, content_length: Option<u64>) -> DownloadTask {
    DownloadTask::begin("http://example/agent".to_string(), "/tmp/agent".to_string(), status, content_length)
        .expect("status should be accepted")
}

#[test]
fn known_total_progress_is_monotone_and_ends_at_total() {
    let mut task = begin_ok(200, Some(10));
    let mut file = Vec::new();

    let events = stream(&mut task, &[4, 3, 3], &mut file).expect("transfer should succeed");

    let downloads: Vec<u64> = events.iter().map(|e| e.downloaded).collect();
    assert_eq!(downloads, vec![4, 7, 10]);
    for pair in downloads.windows(2) {
        assert!(pair[0] <= pair[1]);
    }
    assert_eq!(*downloads.last().unwrap(), 10);
    assert!(events.iter().all(|e| e.total == 10));

    assert_eq!(task.finish(), Ok(10));
    assert_eq!(task.state, TransferState::Completed);
    assert_eq!(file.len(), 10);
}

#[test]
fn empty_body_with_zero_total_completes() {
    let mut task = begin_ok(200, Some(0));
    let mut file = Vec::new();
    let events = stream(&mut task, &[], &mut file).expect("empty transfer should succeed");
    assert!(events.is_empty());
    assert_eq!(task.finish(), Ok(0));
    assert_eq!(file.len(), 0);
}

#[test]
fn missing_content_length_reports_unknown_total_and_completes() {
    let mut task = begin_ok(200, None);
    let mut file = Vec::new();

    let events = stream(&mut task, &[5, 2, 6], &mut file).expect("transfer should succeed");

    // every event reports the total as unknown (0), never a guess
    assert!(events.iter().all(|e| e.total == 0));
    let downloads: Vec<u64> = events.iter().map(|e| e.downloaded).collect();
    assert_eq!(downloads, vec![5, 7, 13]);

    // the stream's end still completes the transfer with all streamed bytes
    assert_eq!(task.finish(), Ok(13));
    assert_eq!(task.state, TransferState::Completed);
    assert_eq!(file.len(), 13);
}

#[test]
fn transport_failure_leaves_partial_file_and_offset_in_error() {
    let mut task = begin_ok(200, Some(100));
    let mut file = Vec::new();

    // two chunks arrive, then the transport fails
    stream(&mut task, &[30, 12], &mut file).expect("prefix should succeed");
    let err = task.fail(false);

    assert_eq!(err, DownloadError::Network { offset: 42 });
    assert_eq!(task.state, TransferState::Failed);
    // the partially written destination is left in place, no rollback
    assert_eq!(file.len(), 42);
    assert_eq!(task.downloaded, 42);
}

#[test]
fn disk_failure_carries_offset_as_io_error() {
    let mut task = begin_ok(200, None);
    let mut file = Vec::new();
    stream(&mut task, &[8], &mut file).expect("prefix should succeed");
    let err = task.fail(true);
    assert_eq!(err, DownloadError::Io { offset: 8 });
    assert_eq!(task.state, TransferState::Failed);
}

#[test]
fn non_success_status_is_rejected_before_any_bytes() {
    for status in [101u16, 301, 404, 500] {
        let r = DownloadTask::begin("u".to_string(), "d".to_string(), status, Some(5));
        assert_eq!(r.unwrap_err(), DownloadError::HttpStatus { code: status });
    }
    for status in [200u16, 204, 299] {
        assert!(DownloadTask::begin("u".to_string(), "d".to_string(), status, Some(5)).is_ok());
    }
}

#[test]
fn body_overrunning_declared_length_fails_the_transfer() {
    let mut task = begin_ok(200, Some(6));
    let mut file = Vec::new();

    let err = stream(&mut task, &[4, 4], &mut file).expect_err("overrun should fail");
    assert_eq!(err, DownloadError::Network { offset: 4 });
    assert_eq!(task.state, TransferState::Failed);
    // the counter never exceeds a known total
    assert_eq!(task.downloaded, 4);
}

#[test]
fn truncated_body_fails_at_the_offset_reached() {
    let mut task = begin_ok(200, Some(20));
    let mut file = Vec::new();

    stream(&mut task, &[9], &mut file).expect("prefix should succeed");
    let err = task.finish().expect_err("short body should fail");
    assert_eq!(err, DownloadError::Network { offset: 9 });
    assert_eq!(task.state, TransferState::Failed);
}
