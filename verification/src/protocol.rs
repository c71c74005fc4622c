//! The exchange between a transfer and its driver.
//!
//! A transfer does no input or output of its own. It tells its driver what
//! to do next, as an [`Action`], and the driver tells it what came of that, as
//! an [`Event`].

use crate::accumulator::PartView;
use crate::error::{TransferFailure, TransferFailureView};
use vstd::prelude::*;

verus! {

/// The backend's acknowledgment of one part: the number of the part and the
/// integrity tag that the backend gave it.
#[derive(Debug, Clone, PartialEq, Eq)]
pub struct PartResult {
    pub part_number: u32,
    pub tag: String,
}

/// A [`PartResult`] as a plain value.
pub struct PartResultView {
    pub part_number: nat,
    pub tag: Seq<char>,
}

impl View for PartResult {
    type V = PartResultView;

    open spec fn view(&self) -> PartResultView {
        PartResultView { part_number: self.part_number as nat, tag: self.tag@ }
    }
}

/// The entries of a manifest as plain values, in the manifest's order.
pub open spec fn manifest_view(manifest: Seq<PartResult>) -> Seq<PartResultView> {
    Seq::new(manifest.len(), |i: int| manifest[i]@)
}

/// Part numbers count up from 1 without a gap or a repeat.
pub open spec fn is_sequential(manifest: Seq<PartResultView>) -> bool {
    forall|i: int| 0 <= i < manifest.len() ==> (#[trigger] manifest[i]).part_number == i + 1
}

/// What the driver reports back to the transfer.
#[derive(Debug, Clone, PartialEq, Eq)]
pub enum Event {
    /// The source answered the read request with this status code.
    SourceResponded { status: u16 },
    /// The read request got no answer at all.
    SourceUnreachable,
    /// The backend opened an upload session and issued this token for it.
    SessionOpened { token: String },
    /// The backend did not open an upload session.
    SessionOpenFailed,
    /// The source delivered its next chunk.
    Chunk { bytes: Vec<u8> },
    /// The source has delivered its last chunk.
    EndOfStream,
    /// The stream from the source broke off.
    SourceInterrupted,
    /// The backend took the part in flight, and answered with this tag or
    /// with none.
    PartUploaded { tag: Option<String> },
    /// The upload of the part in flight failed.
    PartUploadFailed { cause: String },
    /// The backend assembled the object.
    Finalized,
    /// The backend refused to assemble the object.
    FinalizeFailed,
    /// The backend released the session.
    AbortSucceeded,
    /// The backend could not be told to release the session.
    AbortFailed,
}

/// An [`Event`] as a plain value.
pub enum EventView {
    SourceResponded { status: u16 },
    SourceUnreachable,
    SessionOpened { token: Seq<char> },
    SessionOpenFailed,
    Chunk { bytes: Seq<u8> },
    EndOfStream,
    SourceInterrupted,
    PartUploaded { tag: Option<Seq<char>> },
    PartUploadFailed { cause: Seq<char> },
    Finalized,
    FinalizeFailed,
    AbortSucceeded,
    AbortFailed,
}

impl View for Event {
    type V = EventView;

    open spec fn view(&self) -> EventView {
        match *self {
            Event::SourceResponded { status } => EventView::SourceResponded { status },
            Event::SourceUnreachable => EventView::SourceUnreachable,
            Event::SessionOpened { token } => EventView::SessionOpened { token: token@ },
            Event::SessionOpenFailed => EventView::SessionOpenFailed,
            Event::Chunk { bytes } => EventView::Chunk { bytes: bytes@ },
            Event::EndOfStream => EventView::EndOfStream,
            Event::SourceInterrupted => EventView::SourceInterrupted,
            Event::PartUploaded { tag } => EventView::PartUploaded {
                tag: match tag {
                    Some(t) => Some(t@),
                    None => None,
                },
            },
            Event::PartUploadFailed { cause } => EventView::PartUploadFailed { cause: cause@ },
            Event::Finalized => EventView::Finalized,
            Event::FinalizeFailed => EventView::FinalizeFailed,
            Event::AbortSucceeded => EventView::AbortSucceeded,
            Event::AbortFailed => EventView::AbortFailed,
        }
    }
}

/// What the transfer asks its driver to do next.
#[derive(Debug, Clone, PartialEq, Eq)]
pub enum Action {
    /// Open an upload session for the destination.
    OpenSession,
    /// Pull the next chunk from the source.
    ReadChunk,
    /// Submit this part to the session. `retry` counts the failed attempts
    /// that went before, so it is 0 for the first submission.
    UploadPart { token: String, part_number: u32, body: Vec<u8>, retry: u32 },
    /// Assemble the object from the parts that the manifest lists.
    Finalize { token: String, manifest: Vec<PartResult> },
    /// Release the session and whatever parts it holds.
    Abort { token: String },
    /// Report to the caller that the object is in place. Nothing follows.
    ReportSuccess,
    /// Report to the caller why the transfer failed. Nothing follows.
    ReportFailure { failure: TransferFailure },
}

/// An [`Action`] as a plain value.
pub enum ActionView {
    OpenSession,
    ReadChunk,
    UploadPart { token: Seq<char>, part: PartView, retry: nat },
    Finalize { token: Seq<char>, manifest: Seq<PartResultView> },
    Abort { token: Seq<char> },
    ReportSuccess,
    ReportFailure { failure: TransferFailureView },
}

impl View for Action {
    type V = ActionView;

    open spec fn view(&self) -> ActionView {
        match *self {
            Action::OpenSession => ActionView::OpenSession,
            Action::ReadChunk => ActionView::ReadChunk,
            Action::UploadPart { token, part_number, body, retry } => ActionView::UploadPart {
                token: token@,
                part: PartView { number: part_number as nat, bytes: body@ },
                retry: retry as nat,
            },
            Action::Finalize { token, manifest } => ActionView::Finalize {
                token: token@,
                manifest: manifest_view(manifest@),
            },
            Action::Abort { token } => ActionView::Abort { token: token@ },
            Action::ReportSuccess => ActionView::ReportSuccess,
            Action::ReportFailure { failure } => ActionView::ReportFailure { failure: failure@ },
        }
    }
}

} // verus!
