//! The options of a transfer.

use vstd::prelude::*;

verus! {

/// Default least size of a part that is not the last: 5 MiB.
pub const DEFAULT_MIN_PART_SIZE_BYTES: usize = 5242880;

/// Default cap on part uploads in flight: one, that is, sequential upload.
pub const DEFAULT_MAX_CONCURRENT_PART_UPLOADS: u32 = 1;

/// Default number of times that a failed part is tried again.
pub const DEFAULT_PART_RETRY_LIMIT: u32 = 3;

/// Where a transfer reads from, where it writes to, and how it cuts and
/// retries parts.
#[derive(Debug, Clone, PartialEq, Eq)]
pub struct TransferConfig {
    /// Destination container.
    pub bucket: String,
    /// Destination object name.
    pub key: String,
    /// Locator of the source.
    pub source_url: String,
    /// Least number of bytes in a part that is not the last.
    pub min_part_size_bytes: usize,
    /// Most part uploads that may be in flight at once.
    pub max_concurrent_part_uploads: u32,
    /// How many times a part whose upload failed is submitted again before
    /// the transfer is given up.
    pub part_retry_limit: u32,
}

impl TransferConfig {
    /// The options for one object, with every tunable at its default.
    pub fn new(bucket: String, key: String, source_url: String) -> (config: Self)
        ensures
            config.bucket == bucket,
            config.key == key,
            config.source_url == source_url,
            config.min_part_size_bytes == DEFAULT_MIN_PART_SIZE_BYTES,
            config.max_concurrent_part_uploads == DEFAULT_MAX_CONCURRENT_PART_UPLOADS,
            config.part_retry_limit == DEFAULT_PART_RETRY_LIMIT,
    {
        TransferConfig {
            bucket,
            key,
            source_url,
            min_part_size_bytes: DEFAULT_MIN_PART_SIZE_BYTES,
            max_concurrent_part_uploads: DEFAULT_MAX_CONCURRENT_PART_UPLOADS,
            part_retry_limit: DEFAULT_PART_RETRY_LIMIT,
        }
    }
}

} // verus!
