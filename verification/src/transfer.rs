//! The executable transfer: one upload of one source, driven from outside.
//!
//! A [`Transfer`] holds the buffer, the part counter, the session token and
//! the manifest of one transfer, and nothing else touches them. Its driver
//! performs the [`Action`] it is given and calls [`Transfer::step`] with the
//! [`Event`] that came of it, until the transfer asks for its outcome to be
//! reported.

use crate::accumulator::{Part, PartAccumulator};
use crate::config::TransferConfig;
use crate::error::{TransferError, TransferFailure};
use crate::laws::lemma_issued_grows;
use crate::model::{initial, next, SessionState, Stage, TransferView};
use crate::protocol::{manifest_view, Action, Event, EventView, PartResult};
use crate::source::check_status;
use vstd::prelude::*;

verus! {

/// Whether the part counter can number the parts that exist once the event
/// has been taken in the state.
pub open spec fn within_part_limit(s: TransferView, e: EventView) -> bool {
    next(s, e) matches Some(t) ==> t.state.issued().len() <= u32::MAX
}

/// A step cuts at most one part, so a transfer whose part counter has not
/// reached its end can take any event.
pub proof fn lemma_room_for_one_part(s: TransferView, e: EventView)
    requires
        s.wf(),
        s.issued().len() < u32::MAX,
    ensures
        within_part_limit(s, e),
{
    if next(s, e) is Some {
        lemma_issued_grows(s, e);
    }
}

/// One transfer from a source to a multipart upload.
pub struct Transfer {
    config: TransferConfig,
    stage: Stage,
    session: SessionState,
    token: String,
    accumulator: PartAccumulator,
    exhausted: bool,
    in_flight: Option<Part>,
    failures: u32,
    manifest: Vec<PartResult>,
    error: Option<TransferError>,
    received: Ghost<Seq<Seq<u8>>>,
}

impl View for Transfer {
    type V = TransferView;

    closed spec fn view(&self) -> TransferView {
        TransferView {
            threshold: self.config.min_part_size_bytes as nat,
            retry_limit: self.config.part_retry_limit as nat,
            stage: self.stage,
            session: self.session,
            token: self.token@,
            received: self.received@,
            exhausted: self.exhausted,
            tags: Seq::new(self.manifest@.len(), |i: int| self.manifest@[i].tag@),
            failures: self.failures as nat,
            error: match self.error {
                Some(e) => Some(e@),
                None => None,
            },
        }
    }
}

impl Transfer {
    /// The fields agree with each other and with the state they stand for,
    /// whatever the stage.
    spec fn repr(&self) -> bool {
        &&& self.accumulator.wf()
        &&& self.accumulator.threshold() == self.config.min_part_size_bytes
        &&& !self.exhausted ==> self.accumulator.chunks() == self.received@
        &&& forall|i: int|
            0 <= i < self.manifest@.len() ==> (#[trigger] self.manifest@[i]).part_number == i + 1
        &&& self@.tags.len() <= self@.issued().len() <= self@.tags.len() + 1
        &&& self@.issued().len() <= u32::MAX
        &&& self.in_flight is Some <==> self@.tags.len() < self@.issued().len()
        &&& self.in_flight matches Some(p) ==> p@ == self@.part_in_flight()
    }

    /// The transfer is in a state that a transfer can reach.
    pub closed spec fn wf(&self) -> bool {
        &&& self.repr()
        &&& self@.wf()
    }

    /// The options that the transfer was made with.
    pub closed spec fn configured(&self) -> TransferConfig {
        self.config
    }

    /// A transfer that has asked its driver for the source and heard nothing
    /// yet. The driver begins by requesting `config.source_url`.
    pub fn new(config: TransferConfig) -> (transfer: Self)
        ensures
            transfer.wf(),
            transfer.configured() == config,
            transfer@ == initial(
                config.min_part_size_bytes as nat,
                config.part_retry_limit as nat,
            ),
    {
        let accumulator = PartAccumulator::new(config.min_part_size_bytes);
        let transfer = Transfer {
            config,
            stage: Stage::Fetching,
            session: SessionState::Idle,
            token: String::new(),
            accumulator,
            exhausted: false,
            in_flight: None,
            failures: 0,
            manifest: Vec::new(),
            error: None,
            received: Ghost(Seq::empty()),
        };
        assert(transfer@.tags =~= Seq::<Seq<char>>::empty());
        transfer
    }

    /// The options that the transfer was made with.
    pub fn config(&self) -> (config: &TransferConfig)
        ensures
            *config == self.configured(),
            config.min_part_size_bytes == self@.threshold,
            config.part_retry_limit == self@.retry_limit,
    {
        &self.config
    }

    /// What the transfer is waiting for.
    pub fn stage(&self) -> (stage: Stage)
        ensures
            stage == self@.stage,
    {
        self.stage
    }

    /// Where the upload session stands in its life.
    pub fn session_state(&self) -> (state: SessionState)
        ensures
            state == self@.session,
    {
        self.session
    }

    /// Whether the outcome has been reported, after which no event is taken.
    pub fn is_finished(&self) -> (finished: bool)
        ensures
            finished == (self@.stage == Stage::Finished),
    {
        match self.stage {
            Stage::Finished => true,
            _ => false,
        }
    }

    /// The number of parts cut from the source so far, which is also the
    /// number of the latest one.
    pub fn parts_issued(&self) -> (n: u32)
        requires
            self.wf(),
        ensures
            n == self@.issued().len(),
    {
        let acknowledged = self.manifest.len();
        if self.in_flight.is_some() {
            (acknowledged + 1) as u32
        } else {
            acknowledged as u32
        }
    }

    /// The acknowledged parts, by ascending part number.
    pub fn manifest(&self) -> (manifest: &Vec<PartResult>)
        requires
            self.wf(),
        ensures
            manifest_view(manifest@) == self@.manifest(),
    {
        assert(manifest_view(self.manifest@) =~= self@.manifest());
        &self.manifest
    }

    /// Takes what the driver reports and answers with what it is to do next.
    ///
    /// An event that the transfer does not await is refused: nothing changes
    /// and nothing is asked for.
    pub fn step(&mut self, event: Event) -> (action: Option<Action>)
        requires
            old(self).wf(),
            within_part_limit(old(self)@, event@),
        ensures
            final(self).wf(),
            final(self).configured() == old(self).configured(),
            match next(old(self)@, event@) {
                Some(t) => {
                    &&& final(self)@ == t.state
                    &&& action matches Some(a) && a@ == t.action
                },
                None => {
                    &&& final(self)@ == old(self)@
                    &&& action is None
                },
            },
    {
        match self.stage {
            Stage::Fetching => match event {
                Event::SourceResponded { status } => match check_status(status) {
                    Ok(_) => {
                        self.stage = Stage::Opening;
                        Some(Action::OpenSession)
                    },
                    Err(error) => Some(self.give_up(error)),
                },
                Event::SourceUnreachable => Some(self.give_up(TransferError::SourceInterrupted)),
                _ => None,
            },
            Stage::Opening => match event {
                Event::SessionOpened { token } => {
                    self.token = token;
                    self.session = SessionState::Active;
                    self.stage = Stage::Reading;
                    Some(Action::ReadChunk)
                },
                Event::SessionOpenFailed => Some(self.give_up(TransferError::SessionOpenFailed)),
                _ => None,
            },
            Stage::Reading => match event {
                Event::Chunk { bytes } => {
                    proof {
                        let grown = self.received@.push(bytes@);
                        assert(grown.drop_last() =~= self.received@);
                    }
                    let part = self.accumulator.push_chunk(bytes.as_slice());
                    proof {
                        self.received@ = self.received@.push(bytes@);
                    }
                    self.in_flight = part;
                    Some(self.advance())
                },
                Event::EndOfStream => {
                    let mut accumulator = PartAccumulator::new(self.config.min_part_size_bytes);
                    core::mem::swap(&mut self.accumulator, &mut accumulator);
                    self.in_flight = accumulator.finish();
                    self.exhausted = true;
                    Some(self.advance())
                },
                Event::SourceInterrupted => Some(self.abort(TransferError::SourceInterrupted)),
                _ => None,
            },
            Stage::Uploading => match event {
                Event::PartUploaded { tag: Some(tag) } => {
                    let part_number = self.number_in_flight();
                    self.in_flight = None;
                    self.manifest.push(PartResult { part_number, tag });
                    self.failures = 0;
                    assert(self@.tags =~= old(self)@.tags.push(tag@));
                    Some(self.advance())
                },
                Event::PartUploaded { tag: None } => {
                    let part_number = self.number_in_flight();
                    Some(self.abort(TransferError::MissingIntegrityTag { part_number }))
                },
                Event::PartUploadFailed { cause } => {
                    if self.failures < self.config.part_retry_limit {
                        self.failures = self.failures + 1;
                        Some(self.submit())
                    } else {
                        let part_number = self.number_in_flight();
                        Some(self.abort(TransferError::PartUploadFailed { part_number, cause }))
                    }
                },
                _ => None,
            },
            Stage::Finalizing => match event {
                Event::Finalized => {
                    self.session = SessionState::Completed;
                    self.stage = Stage::Finished;
                    Some(Action::ReportSuccess)
                },
                Event::FinalizeFailed => Some(self.abort(TransferError::FinalizeFailed)),
                _ => None,
            },
            Stage::Aborting => match event {
                Event::AbortSucceeded => Some(self.report(None)),
                Event::AbortFailed => Some(self.report(Some(TransferError::AbortFailed))),
                _ => None,
            },
            Stage::Finished => None,
        }
    }

    /// The number of the part in flight.
    fn number_in_flight(&self) -> (number: u32)
        requires
            self.repr(),
            self.in_flight is Some,
        ensures
            number == self@.part_in_flight().number,
    {
        match &self.in_flight {
            Some(part) => part.number,
            None => 0,
        }
    }

    /// Asks for the part in flight to be submitted.
    fn submit(&mut self) -> (action: Action)
        requires
            old(self).repr(),
            old(self).in_flight is Some,
        ensures
            final(self).repr(),
            final(self).configured() == old(self).configured(),
            final(self)@ == old(self)@.submit().state,
            action@ == old(self)@.submit().action,
    {
        self.stage = Stage::Uploading;
        let token = self.token.clone();
        match &self.in_flight {
            Some(part) => {
                let body = part.bytes.clone();
                assert(body@ =~= part.bytes@);
                Action::UploadPart { token, part_number: part.number, body, retry: self.failures }
            },
            None => Action::ReadChunk,
        }
    }

    /// Gives the open session up for the reason given.
    fn abort(&mut self, error: TransferError) -> (action: Action)
        requires
            old(self).repr(),
        ensures
            final(self).repr(),
            final(self).configured() == old(self).configured(),
            final(self)@ == old(self)@.abort(error@).state,
            action@ == old(self)@.abort(error@).action,
    {
        self.stage = Stage::Aborting;
        self.session = SessionState::Aborted;
        self.error = Some(error);
        Action::Abort { token: self.token.clone() }
    }

    /// Ends a transfer that has no session to clean up.
    fn give_up(&mut self, error: TransferError) -> (action: Action)
        requires
            old(self).repr(),
        ensures
            final(self).repr(),
            final(self).configured() == old(self).configured(),
            final(self)@ == old(self)@.give_up(error@).state,
            action@ == old(self)@.give_up(error@).action,
    {
        self.stage = Stage::Finished;
        Action::ReportFailure { failure: TransferFailure { error, abort_error: None } }
    }

    /// Ends an aborted transfer with the reason for the abort.
    fn report(&mut self, abort_error: Option<TransferError>) -> (action: Action)
        requires
            old(self).repr(),
            old(self).error is Some,
        ensures
            final(self).repr(),
            final(self).configured() == old(self).configured(),
            final(self)@ == old(self)@.report(abort_error is Some).state,
            action@ == old(self)@.report(abort_error is Some).action,
    {
        self.stage = Stage::Finished;
        let mut error: Option<TransferError> = None;
        core::mem::swap(&mut self.error, &mut error);
        match error {
            Some(error) => Action::ReportFailure { failure: TransferFailure { error, abort_error } },
            None => Action::ReportSuccess,
        }
    }

    /// Moves on once the source or the backend has been heard.
    fn advance(&mut self) -> (action: Action)
        requires
            old(self).repr(),
        ensures
            final(self).repr(),
            final(self).configured() == old(self).configured(),
            final(self)@ == old(self)@.advance().state,
            action@ == old(self)@.advance().action,
    {
        if self.in_flight.is_some() {
            self.submit()
        } else if !self.exhausted {
            self.stage = Stage::Reading;
            Action::ReadChunk
        } else if self.manifest.len() > 0 {
            self.stage = Stage::Finalizing;
            let token = self.token.clone();
            let manifest = self.manifest_copy();
            Action::Finalize { token, manifest }
        } else {
            self.abort(TransferError::EmptySource)
        }
    }

    /// A copy of the manifest, entry by entry.
    fn manifest_copy(&self) -> (copy: Vec<PartResult>)
        requires
            self.repr(),
        ensures
            manifest_view(copy@) == self@.manifest(),
    {
        let mut copy: Vec<PartResult> = Vec::new();
        let mut i: usize = 0;
        while i < self.manifest.len()
            invariant
                i <= self.manifest@.len(),
                copy@.len() == i,
                forall|j: int| 0 <= j < i ==> (#[trigger] copy@[j])@ == self.manifest@[j]@,
            decreases self.manifest@.len() - i,
        {
            let entry = &self.manifest[i];
            copy.push(PartResult { part_number: entry.part_number, tag: entry.tag.clone() });
            i = i + 1;
        }
        assert(manifest_view(copy@) =~= self@.manifest());
        copy
    }
}

} // verus!
