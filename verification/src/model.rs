//! The transfer as a state machine over plain values.
//!
//! [`next`] says, for every state and every event, which state follows and
//! what the driver is asked to do. The executable transfer is held to it
//! step by step, and what is proved of the pipeline is proved of this model.

use crate::accumulator::{parts_of, regroup, PartView};
use crate::error::{TransferErrorView, TransferFailureView};
use crate::protocol::{ActionView, EventView, PartResultView};
use crate::source::is_success;
use vstd::prelude::*;

verus! {

/// What a transfer is waiting for.
#[derive(Debug, Clone, Copy, PartialEq, Eq)]
pub enum Stage {
    /// The source's answer to the read request.
    Fetching,
    /// The backend's answer to the request for a session.
    Opening,
    /// The next chunk of the source.
    Reading,
    /// The acknowledgment of the part in flight.
    Uploading,
    /// The backend's answer to the manifest.
    Finalizing,
    /// The backend's answer to the abort.
    Aborting,
    /// Nothing: the outcome has been reported.
    Finished,
}

/// Where the upload session stands in its life.
#[derive(Debug, Clone, Copy, PartialEq, Eq)]
pub enum SessionState {
    /// No session has been opened.
    Idle,
    /// The session is open and takes parts.
    Active,
    /// The object has been assembled. Terminal.
    Completed,
    /// The session has been given up. Terminal.
    Aborted,
}

/// The state of a transfer.
pub struct TransferView {
    /// Least number of bytes in a part that is not the last.
    pub threshold: nat,
    /// How many times a failed part is submitted again.
    pub retry_limit: nat,
    pub stage: Stage,
    pub session: SessionState,
    /// The token of the session, once one is open.
    pub token: Seq<char>,
    /// The chunks taken from the source so far, oldest first.
    pub received: Seq<Seq<u8>>,
    /// Whether the source has ended.
    pub exhausted: bool,
    /// The integrity tags of the acknowledged parts, in the order of the
    /// part numbers.
    pub tags: Seq<Seq<char>>,
    /// How many submissions of the part in flight have failed.
    pub failures: nat,
    /// Why the session is being aborted, until that has been reported.
    pub error: Option<TransferErrorView>,
}

/// A step of the machine: the state it leads to and the request it makes.
pub struct Transition {
    pub state: TransferView,
    pub action: ActionView,
}

impl TransferView {
    /// The bodies of the parts cut from the source so far, in the order of
    /// their numbers.
    pub open spec fn issued(self) -> Seq<Seq<u8>> {
        if self.exhausted {
            parts_of(self.received, self.threshold)
        } else {
            regroup(self.received, self.threshold).parts
        }
    }

    /// The acknowledged parts, each number paired with its tag.
    pub open spec fn manifest(self) -> Seq<PartResultView> {
        Seq::new(
            self.tags.len(),
            |i: int| PartResultView { part_number: (i + 1) as nat, tag: self.tags[i] },
        )
    }

    /// The part that follows the acknowledged ones.
    pub open spec fn part_in_flight(self) -> PartView {
        PartView {
            number: self.tags.len() + 1,
            bytes: self.issued()[self.tags.len() as int],
        }
    }

    /// Submits the part in flight.
    pub open spec fn submit(self) -> Transition {
        Transition {
            state: TransferView { stage: Stage::Uploading, ..self },
            action: ActionView::UploadPart {
                token: self.token,
                part: self.part_in_flight(),
                retry: self.failures,
            },
        }
    }

    /// Gives the open session up for the reason given.
    pub open spec fn abort(self, error: TransferErrorView) -> Transition {
        Transition {
            state: TransferView {
                stage: Stage::Aborting,
                session: SessionState::Aborted,
                error: Some(error),
                ..self
            },
            action: ActionView::Abort { token: self.token },
        }
    }

    /// Ends a transfer that has no session to clean up.
    pub open spec fn give_up(self, error: TransferErrorView) -> Transition {
        Transition {
            state: TransferView { stage: Stage::Finished, ..self },
            action: ActionView::ReportFailure {
                failure: TransferFailureView { error, abort_failed: false },
            },
        }
    }

    /// Ends an aborted transfer with the reason for the abort.
    pub open spec fn report(self, abort_failed: bool) -> Transition {
        Transition {
            state: TransferView { stage: Stage::Finished, error: None, ..self },
            action: ActionView::ReportFailure {
                failure: TransferFailureView { error: self.error.unwrap(), abort_failed },
            },
        }
    }

    /// Moves on once the source or the backend has been heard: to the upload
    /// of a part that is ready, else to the next chunk, else, the source
    /// having ended, to the manifest, or to an abort where no part exists.
    pub open spec fn advance(self) -> Transition {
        if self.tags.len() < self.issued().len() {
            self.submit()
        } else if !self.exhausted {
            Transition {
                state: TransferView { stage: Stage::Reading, ..self },
                action: ActionView::ReadChunk,
            }
        } else if self.tags.len() > 0 {
            Transition {
                state: TransferView { stage: Stage::Finalizing, ..self },
                action: ActionView::Finalize { token: self.token, manifest: self.manifest() },
            }
        } else {
            self.abort(TransferErrorView::EmptySource)
        }
    }

    /// What holds of every state that a transfer can reach.
    pub open spec fn wf(self) -> bool {
        &&& self.failures <= self.retry_limit
        &&& self.tags.len() <= self.issued().len() <= self.tags.len() + 1
        &&& match self.stage {
            Stage::Fetching | Stage::Opening => {
                &&& self.session == SessionState::Idle
                &&& self.received.len() == 0
                &&& !self.exhausted
                &&& self.failures == 0
                &&& self.error is None
            },
            Stage::Reading => {
                &&& self.session == SessionState::Active
                &&& !self.exhausted
                &&& self.tags.len() == self.issued().len()
                &&& self.failures == 0
                &&& self.error is None
            },
            Stage::Uploading => {
                &&& self.session == SessionState::Active
                &&& self.tags.len() + 1 == self.issued().len()
                &&& self.error is None
            },
            Stage::Finalizing => {
                &&& self.session == SessionState::Active
                &&& self.exhausted
                &&& self.tags.len() == self.issued().len()
                &&& self.tags.len() > 0
                &&& self.failures == 0
                &&& self.error is None
            },
            Stage::Aborting => {
                &&& self.session == SessionState::Aborted
                &&& self.error is Some
            },
            Stage::Finished => {
                &&& self.session != SessionState::Active
                &&& self.error is None
                &&& self.session == SessionState::Idle ==> !self.exhausted
                &&& self.session == SessionState::Completed ==> {
                    &&& self.exhausted
                    &&& self.tags.len() == self.issued().len()
                    &&& self.tags.len() > 0
                }
            },
        }
    }
}

/// The state of a transfer that has asked for its source and heard nothing
/// yet.
pub open spec fn initial(threshold: nat, retry_limit: nat) -> TransferView {
    TransferView {
        threshold,
        retry_limit,
        stage: Stage::Fetching,
        session: SessionState::Idle,
        token: Seq::empty(),
        received: Seq::empty(),
        exhausted: false,
        tags: Seq::empty(),
        failures: 0,
        error: None,
    }
}

/// The step that an event causes in a state, or `None` where the state does
/// not await that event.
pub open spec fn next(s: TransferView, e: EventView) -> Option<Transition> {
    match s.stage {
        Stage::Fetching => match e {
            EventView::SourceResponded { status } => Some(
                if is_success(status) {
                    Transition {
                        state: TransferView { stage: Stage::Opening, ..s },
                        action: ActionView::OpenSession,
                    }
                } else {
                    s.give_up(TransferErrorView::SourceUnavailable { status })
                },
            ),
            EventView::SourceUnreachable => Some(s.give_up(TransferErrorView::SourceInterrupted)),
            _ => None,
        },
        Stage::Opening => match e {
            EventView::SessionOpened { token } => Some(
                Transition {
                    state: TransferView {
                        stage: Stage::Reading,
                        session: SessionState::Active,
                        token,
                        ..s
                    },
                    action: ActionView::ReadChunk,
                },
            ),
            EventView::SessionOpenFailed => Some(s.give_up(TransferErrorView::SessionOpenFailed)),
            _ => None,
        },
        Stage::Reading => match e {
            EventView::Chunk { bytes } => Some(
                TransferView { received: s.received.push(bytes), ..s }.advance(),
            ),
            EventView::EndOfStream => Some(TransferView { exhausted: true, ..s }.advance()),
            EventView::SourceInterrupted => Some(s.abort(TransferErrorView::SourceInterrupted)),
            _ => None,
        },
        Stage::Uploading => match e {
            EventView::PartUploaded { tag: Some(tag) } => Some(
                TransferView { tags: s.tags.push(tag), failures: 0, ..s }.advance(),
            ),
            EventView::PartUploaded { tag: None } => Some(
                s.abort(
                    TransferErrorView::MissingIntegrityTag {
                        part_number: s.part_in_flight().number,
                    },
                ),
            ),
            EventView::PartUploadFailed { cause } => Some(
                if s.failures < s.retry_limit {
                    TransferView { failures: s.failures + 1, ..s }.submit()
                } else {
                    s.abort(
                        TransferErrorView::PartUploadFailed {
                            part_number: s.part_in_flight().number,
                            cause,
                        },
                    )
                },
            ),
            _ => None,
        },
        Stage::Finalizing => match e {
            EventView::Finalized => Some(
                Transition {
                    state: TransferView {
                        stage: Stage::Finished,
                        session: SessionState::Completed,
                        ..s
                    },
                    action: ActionView::ReportSuccess,
                },
            ),
            EventView::FinalizeFailed => Some(s.abort(TransferErrorView::FinalizeFailed)),
            _ => None,
        },
        Stage::Aborting => match e {
            EventView::AbortSucceeded => Some(s.report(false)),
            EventView::AbortFailed => Some(s.report(true)),
            _ => None,
        },
        Stage::Finished => None,
    }
}

/// A state together with the requests made on the way to it.
pub struct Trace {
    pub state: TransferView,
    pub actions: Seq<ActionView>,
}

/// Feeds a run of events to the machine, one after the other. An event that
/// the state does not await changes nothing and leaves no request.
pub open spec fn run(s: TransferView, events: Seq<EventView>) -> Trace
    decreases events.len(),
{
    if events.len() == 0 {
        Trace { state: s, actions: Seq::empty() }
    } else {
        let before = run(s, events.drop_last());
        match next(before.state, events.last()) {
            Some(t) => Trace { state: t.state, actions: before.actions.push(t.action) },
            None => before,
        }
    }
}

} // verus!
