//! What can go wrong with a transfer, and how it is reported.

use vstd::prelude::*;

verus! {

/// The reason a transfer did not complete.
#[derive(Debug, Clone, PartialEq, Eq)]
pub enum TransferError {
    /// The source answered the read request with a status outside the
    /// success range. No session was opened.
    SourceUnavailable { status: u16 },
    /// The transport to the source failed: before any response, or in the
    /// middle of the stream.
    SourceInterrupted,
    /// The backend did not open an upload session.
    SessionOpenFailed,
    /// The source ended without a single byte, so there is nothing to
    /// finalize.
    EmptySource,
    /// The backend acknowledged a part without an integrity tag.
    MissingIntegrityTag { part_number: u32 },
    /// A part could not be uploaded within the retry limit.
    PartUploadFailed { part_number: u32, cause: String },
    /// The backend refused to assemble the object from its parts.
    FinalizeFailed,
    /// The backend could not be told to release the session. Reported beside
    /// the error that led to the abort, never in its place.
    AbortFailed,
}

/// A [`TransferError`] as a plain value.
pub enum TransferErrorView {
    SourceUnavailable { status: u16 },
    SourceInterrupted,
    SessionOpenFailed,
    EmptySource,
    MissingIntegrityTag { part_number: nat },
    PartUploadFailed { part_number: nat, cause: Seq<char> },
    FinalizeFailed,
    AbortFailed,
}

impl View for TransferError {
    type V = TransferErrorView;

    open spec fn view(&self) -> TransferErrorView {
        match *self {
            TransferError::SourceUnavailable { status } => TransferErrorView::SourceUnavailable {
                status,
            },
            TransferError::SourceInterrupted => TransferErrorView::SourceInterrupted,
            TransferError::SessionOpenFailed => TransferErrorView::SessionOpenFailed,
            TransferError::EmptySource => TransferErrorView::EmptySource,
            TransferError::MissingIntegrityTag {
                part_number,
            } => TransferErrorView::MissingIntegrityTag { part_number: part_number as nat },
            TransferError::PartUploadFailed {
                part_number,
                cause,
            } => TransferErrorView::PartUploadFailed {
                part_number: part_number as nat,
                cause: cause@,
            },
            TransferError::FinalizeFailed => TransferErrorView::FinalizeFailed,
            TransferError::AbortFailed => TransferErrorView::AbortFailed,
        }
    }
}

/// The one report that the caller of a failed transfer gets: the root cause,
/// and a note if releasing the session failed as well.
#[derive(Debug, Clone, PartialEq, Eq)]
pub struct TransferFailure {
    /// What ended the transfer.
    pub error: TransferError,
    /// `Some(TransferError::AbortFailed)` if an abort was attempted and
    /// failed, `None` otherwise.
    pub abort_error: Option<TransferError>,
}

/// A [`TransferFailure`] as a plain value.
pub struct TransferFailureView {
    pub error: TransferErrorView,
    pub abort_failed: bool,
}

impl View for TransferFailure {
    type V = TransferFailureView;

    open spec fn view(&self) -> TransferFailureView {
        TransferFailureView { error: self.error@, abort_failed: self.abort_error is Some }
    }
}

impl TransferFailure {
    /// The note on the abort is either absent or says that the abort failed.
    pub open spec fn wf(&self) -> bool {
        self.abort_error matches Some(e) ==> e == TransferError::AbortFailed
    }
}

} // verus!
