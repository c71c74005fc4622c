//! Streaming transfer of a byte source into a multipart object-storage upload.

pub mod accumulator;
pub mod config;
pub mod error;
pub mod laws;
pub mod model;
pub mod protocol;
pub mod s3;
pub mod source;
pub mod transfer;
