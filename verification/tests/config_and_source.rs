use streaming_upload::config::{
    TransferConfig, DEFAULT_MAX_CONCURRENT_PART_UPLOADS, DEFAULT_MIN_PART_SIZE_BYTES,
    DEFAULT_PART_RETRY_LIMIT,
};
use streaming_upload::error::TransferError;
use streaming_upload::source::check_status;

#[test]
fn new_config_has_the_defaults() {
    let config = TransferConfig::new(
        String::from("bucket"),
        String::from("key"),
        String::from("https://example.test/file"),
    );
    assert_eq!(config.bucket, "bucket");
    assert_eq!(config.key, "key");
    assert_eq!(config.source_url, "https://example.test/file");
    assert_eq!(config.min_part_size_bytes, 5 * 1024 * 1024);
    assert_eq!(config.max_concurrent_part_uploads, 1);
    assert_eq!(config.part_retry_limit, 3);
}

#[test]
fn default_constants_have_their_values() {
    assert_eq!(DEFAULT_MIN_PART_SIZE_BYTES, 5_242_880);
    assert_eq!(DEFAULT_MAX_CONCURRENT_PART_UPLOADS, 1);
    assert_eq!(DEFAULT_PART_RETRY_LIMIT, 3);
}

#[test]
fn success_statuses_pass() {
    assert_eq!(check_status(200), Ok(()));
    assert_eq!(check_status(204), Ok(()));
    assert_eq!(check_status(299), Ok(()));
}

#[test]
fn other_statuses_are_source_unavailable() {
    for status in [0u16, 100, 199, 300, 304, 404, 500, 503, 65535] {
        assert_eq!(check_status(status), Err(TransferError::SourceUnavailable { status }));
    }
}
