use streaming_upload::config::TransferConfig;
use streaming_upload::error::{TransferError, TransferFailure};
use streaming_upload::model::{SessionState, Stage};
use streaming_upload::protocol::{Action, Event, PartResult};
use streaming_upload::transfer::Transfer;

fn config(threshold: usize, retry_limit: u32) -> TransferConfig {
    let mut config = TransferConfig::new(
        String::from("bucket"),
        String::from("object.mp4"),
        String::from("https://source.test/file"),
    );
    config.min_part_size_bytes = threshold;
    config.part_retry_limit = retry_limit;
    config
}

fn opened(threshold: usize, retry_limit: u32) -> Transfer {
    let mut transfer = Transfer::new(config(threshold, retry_limit));
    assert_eq!(transfer.step(Event::SourceResponded { status: 200 }), Some(Action::OpenSession));
    assert_eq!(
        transfer.step(Event::SessionOpened { token: String::from("upload-1") }),
        Some(Action::ReadChunk)
    );
    transfer
}

fn token() -> String {
    String::from("upload-1")
}

fn upload(part_number: u32, body: Vec<u8>, retry: u32) -> Option<Action> {
    Some(Action::UploadPart { token: token(), part_number, body, retry })
}

fn uploaded(tag: &str) -> Event {
    Event::PartUploaded { tag: Some(String::from(tag)) }
}

fn failed(cause: &str) -> Event {
    Event::PartUploadFailed { cause: String::from(cause) }
}

fn entry(part_number: u32, tag: &str) -> PartResult {
    PartResult { part_number, tag: String::from(tag) }
}

fn failure(error: TransferError, abort_failed: bool) -> Option<Action> {
    let abort_error = if abort_failed { Some(TransferError::AbortFailed) } else { None };
    Some(Action::ReportFailure { failure: TransferFailure { error, abort_error } })
}

fn abort() -> Option<Action> {
    Some(Action::Abort { token: token() })
}

#[test]
fn new_transfer_awaits_the_source() {
    let transfer = Transfer::new(config(4, 3));
    assert_eq!(transfer.stage(), Stage::Fetching);
    assert_eq!(transfer.session_state(), SessionState::Idle);
    assert!(!transfer.is_finished());
    assert_eq!(transfer.parts_issued(), 0);
    assert!(transfer.manifest().is_empty());
    assert_eq!(transfer.config().bucket, "bucket");
    assert_eq!(transfer.config().key, "object.mp4");
    assert_eq!(transfer.config().source_url, "https://source.test/file");
    assert_eq!(transfer.config().min_part_size_bytes, 4);
    assert_eq!(transfer.config().part_retry_limit, 3);
}

#[test]
fn twelve_mebibytes_are_uploaded_as_three_parts() {
    let threshold = 5 * 1024 * 1024;
    let mut transfer = opened(threshold, 3);
    let chunk = vec![3u8; 64 * 1024];
    let mut uploads: Vec<(u32, usize)> = Vec::new();
    for _ in 0..192 {
        match transfer.step(Event::Chunk { bytes: chunk.clone() }) {
            Some(Action::ReadChunk) => {}
            Some(Action::UploadPart { token: t, part_number, body, retry }) => {
                assert_eq!(t, token());
                assert_eq!(retry, 0);
                assert!(body.len() >= threshold);
                uploads.push((part_number, body.len()));
                let tag = format!("tag{}", part_number);
                assert_eq!(transfer.step(uploaded(&tag)), Some(Action::ReadChunk));
            }
            other => panic!("unexpected request: {:?}", other),
        }
    }
    assert_eq!(uploads, vec![(1, threshold), (2, threshold)]);
    match transfer.step(Event::EndOfStream) {
        Some(Action::UploadPart { part_number, body, retry, .. }) => {
            assert_eq!(part_number, 3);
            assert_eq!(body.len(), 2 * 1024 * 1024);
            assert!(body.len() < threshold);
            assert_eq!(retry, 0);
        }
        other => panic!("unexpected request: {:?}", other),
    }
    assert_eq!(transfer.parts_issued(), 3);
    let manifest = vec![entry(1, "tag1"), entry(2, "tag2"), entry(3, "tag3")];
    assert_eq!(
        transfer.step(uploaded("tag3")),
        Some(Action::Finalize { token: token(), manifest: manifest.clone() })
    );
    assert_eq!(transfer.manifest(), &manifest);
    assert_eq!(transfer.stage(), Stage::Finalizing);
    assert_eq!(transfer.step(Event::Finalized), Some(Action::ReportSuccess));
    assert_eq!(transfer.session_state(), SessionState::Completed);
    assert!(transfer.is_finished());
}

#[test]
fn status_404_fails_without_opening_a_session() {
    let mut transfer = Transfer::new(config(4, 3));
    assert_eq!(
        transfer.step(Event::SourceResponded { status: 404 }),
        failure(TransferError::SourceUnavailable { status: 404 }, false)
    );
    assert!(transfer.is_finished());
    assert_eq!(transfer.session_state(), SessionState::Idle);
    assert_eq!(transfer.step(Event::SessionOpened { token: token() }), None);
}

#[test]
fn redirect_status_is_not_success() {
    let mut transfer = Transfer::new(config(4, 3));
    assert_eq!(
        transfer.step(Event::SourceResponded { status: 304 }),
        failure(TransferError::SourceUnavailable { status: 304 }, false)
    );
}

#[test]
fn unreachable_source_is_source_interrupted() {
    let mut transfer = Transfer::new(config(4, 3));
    assert_eq!(
        transfer.step(Event::SourceUnreachable),
        failure(TransferError::SourceInterrupted, false)
    );
    assert!(transfer.is_finished());
    assert_eq!(transfer.session_state(), SessionState::Idle);
}

#[test]
fn failure_to_open_needs_no_abort() {
    let mut transfer = Transfer::new(config(4, 3));
    assert_eq!(transfer.step(Event::SourceResponded { status: 200 }), Some(Action::OpenSession));
    assert_eq!(transfer.stage(), Stage::Opening);
    assert_eq!(
        transfer.step(Event::SessionOpenFailed),
        failure(TransferError::SessionOpenFailed, false)
    );
    assert!(transfer.is_finished());
    assert_eq!(transfer.session_state(), SessionState::Idle);
}

#[test]
fn second_part_succeeds_on_third_attempt() {
    let mut transfer = opened(2, 3);
    assert_eq!(transfer.step(Event::Chunk { bytes: vec![1, 2] }), upload(1, vec![1, 2], 0));
    assert_eq!(transfer.step(uploaded("a")), Some(Action::ReadChunk));
    assert_eq!(transfer.step(Event::Chunk { bytes: vec![3, 4, 5] }), upload(2, vec![3, 4, 5], 0));
    assert_eq!(transfer.step(failed("timeout")), upload(2, vec![3, 4, 5], 1));
    assert_eq!(transfer.step(failed("reset")), upload(2, vec![3, 4, 5], 2));
    assert_eq!(transfer.step(uploaded("b")), Some(Action::ReadChunk));
    assert_eq!(transfer.manifest(), &vec![entry(1, "a"), entry(2, "b")]);
    assert_eq!(
        transfer.step(Event::EndOfStream),
        Some(Action::Finalize { token: token(), manifest: vec![entry(1, "a"), entry(2, "b")] })
    );
    assert_eq!(transfer.step(Event::Finalized), Some(Action::ReportSuccess));
    assert_eq!(transfer.session_state(), SessionState::Completed);
}

#[test]
fn retried_part_leaves_the_manifest_of_a_first_success() {
    let mut direct = opened(2, 3);
    let mut retried = opened(2, 3);
    assert_eq!(direct.step(Event::Chunk { bytes: vec![1, 2] }), upload(1, vec![1, 2], 0));
    assert_eq!(retried.step(Event::Chunk { bytes: vec![1, 2] }), upload(1, vec![1, 2], 0));
    assert_eq!(retried.step(failed("transient")), upload(1, vec![1, 2], 1));
    assert_eq!(direct.step(uploaded("t")), retried.step(uploaded("t")));
    assert_eq!(direct.manifest(), retried.manifest());
    assert_eq!(direct.stage(), retried.stage());
    assert_eq!(direct.step(Event::EndOfStream), retried.step(Event::EndOfStream));
}

#[test]
fn retry_counter_starts_anew_with_each_part() {
    let mut transfer = opened(1, 1);
    assert_eq!(transfer.step(Event::Chunk { bytes: vec![1] }), upload(1, vec![1], 0));
    assert_eq!(transfer.step(failed("x")), upload(1, vec![1], 1));
    assert_eq!(transfer.step(uploaded("a")), Some(Action::ReadChunk));
    assert_eq!(transfer.step(Event::Chunk { bytes: vec![2] }), upload(2, vec![2], 0));
    assert_eq!(transfer.step(failed("y")), upload(2, vec![2], 1));
    assert_eq!(transfer.step(failed("z")), abort());
}

#[test]
fn retries_run_out_after_the_limit() {
    let mut transfer = opened(2, 3);
    assert_eq!(transfer.step(Event::Chunk { bytes: vec![1, 2] }), upload(1, vec![1, 2], 0));
    assert_eq!(transfer.step(failed("one")), upload(1, vec![1, 2], 1));
    assert_eq!(transfer.step(failed("two")), upload(1, vec![1, 2], 2));
    assert_eq!(transfer.step(failed("three")), upload(1, vec![1, 2], 3));
    assert_eq!(transfer.step(failed("four")), abort());
    assert_eq!(transfer.session_state(), SessionState::Aborted);
    assert_eq!(transfer.stage(), Stage::Aborting);
    assert_eq!(
        transfer.step(Event::AbortSucceeded),
        failure(
            TransferError::PartUploadFailed { part_number: 1, cause: String::from("four") },
            false
        )
    );
    assert!(transfer.is_finished());
}

#[test]
fn retry_limit_zero_allows_one_attempt() {
    let mut transfer = opened(2, 0);
    assert_eq!(transfer.step(Event::Chunk { bytes: vec![1, 2] }), upload(1, vec![1, 2], 0));
    assert_eq!(transfer.step(failed("down")), abort());
    assert_eq!(
        transfer.step(Event::AbortSucceeded),
        failure(
            TransferError::PartUploadFailed { part_number: 1, cause: String::from("down") },
            false
        )
    );
}

#[test]
fn empty_source_opens_then_aborts() {
    let mut transfer = Transfer::new(config(4, 3));
    let mut requests = Vec::new();
    requests.push(transfer.step(Event::SourceResponded { status: 200 }));
    requests.push(transfer.step(Event::SessionOpened { token: token() }));
    requests.push(transfer.step(Event::EndOfStream));
    assert_eq!(requests, vec![Some(Action::OpenSession), Some(Action::ReadChunk), abort()]);
    assert_eq!(transfer.session_state(), SessionState::Aborted);
    assert_eq!(transfer.step(Event::Finalized), None);
    assert_eq!(transfer.step(Event::AbortSucceeded), failure(TransferError::EmptySource, false));
    assert!(transfer.is_finished());
}

#[test]
fn source_of_empty_chunks_is_empty() {
    let mut transfer = opened(4, 3);
    assert_eq!(transfer.step(Event::Chunk { bytes: vec![] }), Some(Action::ReadChunk));
    assert_eq!(transfer.step(Event::Chunk { bytes: vec![] }), Some(Action::ReadChunk));
    assert_eq!(transfer.parts_issued(), 0);
    assert_eq!(transfer.step(Event::EndOfStream), abort());
    assert_eq!(transfer.step(Event::AbortFailed), failure(TransferError::EmptySource, true));
}

#[test]
fn short_source_is_one_part_below_the_threshold() {
    let mut transfer = opened(100, 3);
    assert_eq!(transfer.step(Event::Chunk { bytes: vec![1, 2, 3] }), Some(Action::ReadChunk));
    assert_eq!(transfer.step(Event::EndOfStream), upload(1, vec![1, 2, 3], 0));
    assert_eq!(
        transfer.step(uploaded("only")),
        Some(Action::Finalize { token: token(), manifest: vec![entry(1, "only")] })
    );
    assert_eq!(transfer.step(Event::Finalized), Some(Action::ReportSuccess));
}

#[test]
fn source_interruption_aborts_once() {
    let mut transfer = opened(4, 3);
    assert_eq!(transfer.step(Event::Chunk { bytes: vec![1] }), Some(Action::ReadChunk));
    assert_eq!(transfer.step(Event::SourceInterrupted), abort());
    assert_eq!(transfer.session_state(), SessionState::Aborted);
    assert_eq!(transfer.step(Event::SourceInterrupted), None);
    assert_eq!(transfer.step(Event::Chunk { bytes: vec![2] }), None);
    assert_eq!(
        transfer.step(Event::AbortSucceeded),
        failure(TransferError::SourceInterrupted, false)
    );
    assert_eq!(transfer.step(Event::AbortSucceeded), None);
}

#[test]
fn missing_tag_aborts_once() {
    let mut transfer = opened(2, 3);
    assert_eq!(transfer.step(Event::Chunk { bytes: vec![1, 2] }), upload(1, vec![1, 2], 0));
    assert_eq!(transfer.step(uploaded("a")), Some(Action::ReadChunk));
    assert_eq!(transfer.step(Event::Chunk { bytes: vec![3, 4] }), upload(2, vec![3, 4], 0));
    assert_eq!(transfer.step(Event::PartUploaded { tag: None }), abort());
    assert_eq!(transfer.step(Event::PartUploaded { tag: None }), None);
    assert_eq!(transfer.manifest(), &vec![entry(1, "a")]);
    assert_eq!(transfer.parts_issued(), 2);
    assert_eq!(
        transfer.step(Event::AbortSucceeded),
        failure(TransferError::MissingIntegrityTag { part_number: 2 }, false)
    );
}

#[test]
fn finalize_failure_aborts_once() {
    let mut transfer = opened(2, 3);
    assert_eq!(transfer.step(Event::Chunk { bytes: vec![1, 2] }), upload(1, vec![1, 2], 0));
    assert_eq!(transfer.step(uploaded("a")), Some(Action::ReadChunk));
    assert_eq!(
        transfer.step(Event::EndOfStream),
        Some(Action::Finalize { token: token(), manifest: vec![entry(1, "a")] })
    );
    assert_eq!(transfer.step(Event::FinalizeFailed), abort());
    assert_eq!(transfer.step(Event::FinalizeFailed), None);
    assert_eq!(transfer.step(Event::Finalized), None);
    assert_eq!(transfer.step(Event::AbortSucceeded), failure(TransferError::FinalizeFailed, false));
    assert_eq!(transfer.session_state(), SessionState::Aborted);
}

#[test]
fn failed_abort_is_reported_beside_the_cause() {
    let mut transfer = opened(2, 3);
    assert_eq!(transfer.step(Event::SourceInterrupted), abort());
    assert_eq!(
        transfer.step(Event::AbortFailed),
        failure(TransferError::SourceInterrupted, true)
    );
    assert!(transfer.is_finished());
    assert_eq!(transfer.session_state(), SessionState::Aborted);
}

#[test]
fn no_abort_follows_a_completed_upload() {
    let mut transfer = opened(1, 3);
    assert_eq!(transfer.step(Event::Chunk { bytes: vec![1] }), upload(1, vec![1], 0));
    assert_eq!(transfer.step(uploaded("a")), Some(Action::ReadChunk));
    assert!(matches!(transfer.step(Event::EndOfStream), Some(Action::Finalize { .. })));
    assert_eq!(transfer.step(Event::Finalized), Some(Action::ReportSuccess));
    for event in [
        Event::FinalizeFailed,
        Event::SourceInterrupted,
        failed("late"),
        Event::PartUploaded { tag: None },
        Event::AbortFailed,
        Event::Finalized,
    ] {
        assert_eq!(transfer.step(event), None);
    }
    assert_eq!(transfer.session_state(), SessionState::Completed);
}

#[test]
fn events_out_of_turn_are_refused() {
    let mut transfer = Transfer::new(config(2, 3));
    assert_eq!(transfer.step(Event::Chunk { bytes: vec![1, 2] }), None);
    assert_eq!(transfer.step(Event::SessionOpened { token: token() }), None);
    assert_eq!(transfer.stage(), Stage::Fetching);
    assert_eq!(transfer.step(Event::SourceResponded { status: 200 }), Some(Action::OpenSession));
    assert_eq!(transfer.step(Event::SourceResponded { status: 200 }), None);
    assert_eq!(transfer.step(Event::EndOfStream), None);
    assert_eq!(transfer.step(Event::SessionOpened { token: token() }), Some(Action::ReadChunk));
    assert_eq!(transfer.step(uploaded("early")), None);
    assert_eq!(transfer.step(Event::Finalized), None);
    assert_eq!(transfer.step(Event::AbortSucceeded), None);
    assert_eq!(transfer.stage(), Stage::Reading);
    assert_eq!(transfer.step(Event::Chunk { bytes: vec![1, 2] }), upload(1, vec![1, 2], 0));
    assert_eq!(transfer.step(Event::Chunk { bytes: vec![3] }), None);
    assert_eq!(transfer.step(Event::EndOfStream), None);
    assert_eq!(transfer.stage(), Stage::Uploading);
    assert_eq!(transfer.parts_issued(), 1);
    assert!(transfer.manifest().is_empty());
}

#[test]
fn session_moves_through_its_states() {
    let mut transfer = Transfer::new(config(1, 3));
    assert_eq!(transfer.session_state(), SessionState::Idle);
    transfer.step(Event::SourceResponded { status: 200 });
    assert_eq!(transfer.session_state(), SessionState::Idle);
    transfer.step(Event::SessionOpened { token: token() });
    assert_eq!(transfer.session_state(), SessionState::Active);
    transfer.step(Event::Chunk { bytes: vec![1] });
    assert_eq!(transfer.session_state(), SessionState::Active);
    transfer.step(uploaded("a"));
    transfer.step(Event::EndOfStream);
    assert_eq!(transfer.session_state(), SessionState::Active);
    transfer.step(Event::Finalized);
    assert_eq!(transfer.session_state(), SessionState::Completed);
}

#[test]
fn uploaded_parts_joined_are_the_source() {
    let chunks: Vec<Vec<u8>> = (0..40u8).map(|i| vec![i; (i % 5) as usize]).collect();
    let stream: Vec<u8> = chunks.iter().flatten().copied().collect();
    let mut transfer = opened(7, 3);
    let mut joined: Vec<u8> = Vec::new();
    let mut numbers: Vec<u32> = Vec::new();
    let mut events: Vec<Event> =
        chunks.iter().map(|c| Event::Chunk { bytes: c.clone() }).collect();
    events.push(Event::EndOfStream);
    let mut finalized: Option<Vec<PartResult>> = None;
    for event in events {
        let mut request = transfer.step(event);
        while let Some(Action::UploadPart { part_number, body, .. }) = request {
            numbers.push(part_number);
            joined.extend_from_slice(&body);
            request = transfer.step(uploaded(&format!("t{}", part_number)));
        }
        if let Some(Action::Finalize { manifest, .. }) = request {
            finalized = Some(manifest);
        }
    }
    assert_eq!(joined, stream);
    let expected: Vec<u32> = (1..=numbers.len() as u32).collect();
    assert_eq!(numbers, expected);
    let manifest = finalized.expect("the source had bytes");
    let listed: Vec<u32> = manifest.iter().map(|e| e.part_number).collect();
    assert_eq!(listed, expected);
    for e in &manifest {
        assert_eq!(e.tag, format!("t{}", e.part_number));
    }
}
