//! What holds of every transfer, proved of the model that the executable
//! transfer follows step by step.

use crate::accumulator::{
    lemma_no_parts_iff_no_bytes, lemma_part_sizes, lemma_parts_preserve_stream, lemma_regroup,
    parts_of, regroup,
};
use crate::error::TransferErrorView;
use crate::model::{initial, next, run, SessionState, Stage, Trace, TransferView};
use crate::protocol::{is_sequential, ActionView, EventView};
use vstd::prelude::*;

verus! {

/// The parts cut so far stay what they are: a step adds at most one part
/// behind them and changes none of them.
pub proof fn lemma_issued_grows(s: TransferView, e: EventView)
    requires
        s.wf(),
        next(s, e) is Some,
    ensures
        s.issued().len() <= next(s, e).unwrap().state.issued().len() <= s.issued().len() + 1,
        forall|i: int|
            0 <= i < s.issued().len() ==> #[trigger] next(s, e).unwrap().state.issued()[i]
                == s.issued()[i],
{
    let t = next(s, e).unwrap();
    match e {
        EventView::Chunk { bytes } => {
            if s.stage == Stage::Reading {
                assert(s.received.push(bytes).drop_last() =~= s.received);
            }
        },
        _ => {},
    }
}

/// A step leads from a reachable state to a reachable state.
pub proof fn lemma_next_preserves_wf(s: TransferView, e: EventView)
    requires
        s.wf(),
        next(s, e) is Some,
    ensures
        next(s, e).unwrap().state.wf(),
        next(s, e).unwrap().state.threshold == s.threshold,
        next(s, e).unwrap().state.retry_limit == s.retry_limit,
{
    lemma_issued_grows(s, e);
}

/// A transfer starts in a reachable state.
pub proof fn lemma_initial_wf(threshold: nat, retry_limit: nat)
    ensures
        initial(threshold, retry_limit).wf(),
{
}

/// However many events are fed to it, a transfer stays in a reachable
/// state, with the options it started with.
pub proof fn lemma_run_preserves_wf(s: TransferView, events: Seq<EventView>)
    requires
        s.wf(),
    ensures
        run(s, events).state.wf(),
        run(s, events).state.threshold == s.threshold,
        run(s, events).state.retry_limit == s.retry_limit,
    decreases events.len(),
{
    if events.len() > 0 {
        lemma_run_preserves_wf(s, events.drop_last());
        let before = run(s, events.drop_last());
        if next(before.state, events.last()) is Some {
            lemma_next_preserves_wf(before.state, events.last());
        }
    }
}

/// Feeding two runs of events in a row is feeding the second to the state
/// that the first has led to.
pub proof fn lemma_run_split(s: TransferView, first: Seq<EventView>, second: Seq<EventView>)
    ensures
        run(s, first + second).state == run(run(s, first).state, second).state,
        run(s, first + second).actions == run(s, first).actions + run(
            run(s, first).state,
            second,
        ).actions,
    decreases second.len(),
{
    if second.len() == 0 {
        assert(first + second =~= first);
        assert(run(s, first).actions + Seq::<ActionView>::empty() =~= run(s, first).actions);
    } else {
        lemma_run_split(s, first, second.drop_last());
        assert((first + second).drop_last() =~= first + second.drop_last());
        assert((first + second).last() == second.last());
        let mid = run(s, first);
        let before = run(mid.state, second.drop_last());
        match next(before.state, second.last()) {
            Some(t) => {
                assert((mid.actions + before.actions).push(t.action) =~= mid.actions
                    + before.actions.push(t.action));
            },
            None => {},
        }
    }
}

/// Feeding an event and then a run of events is feeding the run to the
/// state that the event has led to.
pub proof fn lemma_run_first(s: TransferView, e: EventView, rest: Seq<EventView>)
    ensures
        next(s, e) matches Some(t) ==> {
            &&& run(s, seq![e] + rest).state == run(t.state, rest).state
            &&& run(s, seq![e] + rest).actions == seq![t.action] + run(t.state, rest).actions
        },
        next(s, e) is None ==> run(s, seq![e] + rest) == run(s, rest),
{
    let one = seq![e];
    lemma_run_split(s, one, rest);
    assert(one.drop_last() =~= Seq::<EventView>::empty());
    assert(one.last() == e);
    assert(run(s, one.drop_last()) == Trace { state: s, actions: Seq::empty() });
    match next(s, e) {
        Some(t) => {
            assert(run(s, one).actions =~= seq![t.action]);
        },
        None => {
            assert(Seq::<ActionView>::empty() + run(s, rest).actions =~= run(s, rest).actions);
        },
    }
}

/// A session moves from idle to active and from active to completed or to
/// aborted, and nowhere else.
pub open spec fn session_may_move(from: SessionState, to: SessionState) -> bool {
    ||| from == to
    ||| from == SessionState::Idle && to == SessionState::Active
    ||| from == SessionState::Active && to == SessionState::Completed
    ||| from == SessionState::Active && to == SessionState::Aborted
}

/// Each step moves the session along its life or leaves it where it is, and
/// no step leads out of a finished transfer.
pub proof fn lemma_session_lifecycle(s: TransferView, e: EventView)
    requires
        s.wf(),
    ensures
        next(s, e) matches Some(t) ==> session_may_move(s.session, t.state.session),
        s.stage == Stage::Finished ==> next(s, e) is None,
{
}

/// The caller is told of success when the backend has assembled the object,
/// and at no other time.
pub proof fn lemma_success_iff_finalized(s: TransferView, e: EventView)
    requires
        s.wf(),
    ensures
        (next(s, e) matches Some(t) && t.action == ActionView::ReportSuccess) <==> (s.stage
            == Stage::Finalizing && e == EventView::Finalized),
        (next(s, e) matches Some(t) && t.state.session == SessionState::Completed) <==> (s.stage
            == Stage::Finalizing && e == EventView::Finalized),
{
}

/// The errors that end a transfer whose session is open: the stream breaks
/// off, a part comes back without a tag, a part fails with no retry left, or
/// the backend refuses the manifest.
pub open spec fn is_fatal(s: TransferView, e: EventView) -> bool {
    ||| s.stage == Stage::Reading && e == EventView::SourceInterrupted
    ||| s.stage == Stage::Uploading && e == (EventView::PartUploaded { tag: None })
    ||| s.stage == Stage::Uploading && e is PartUploadFailed && s.failures >= s.retry_limit
    ||| s.stage == Stage::Finalizing && e == EventView::FinalizeFailed
}

/// The number of abort requests among the requests.
pub open spec fn aborts(actions: Seq<ActionView>) -> nat
    decreases actions.len(),
{
    if actions.len() == 0 {
        0
    } else {
        aborts(actions.drop_last()) + if actions.last() is Abort {
            1nat
        } else {
            0nat
        }
    }
}

/// The abort requests of two runs of requests add up.
pub proof fn lemma_aborts_concat(a: Seq<ActionView>, b: Seq<ActionView>)
    ensures
        aborts(a + b) == aborts(a) + aborts(b),
    decreases b.len(),
{
    if b.len() == 0 {
        assert(a + b =~= a);
    } else {
        lemma_aborts_concat(a, b.drop_last());
        assert((a + b).drop_last() =~= a + b.drop_last());
    }
}

/// A session that has ended stays as it ended, and over any run of events
/// an abort is requested once if the session goes from open or idle to
/// aborted, and not at all otherwise.
pub proof fn lemma_abort_count(s: TransferView, events: Seq<EventView>)
    requires
        s.wf(),
    ensures
        s.session == SessionState::Aborted || s.session == SessionState::Completed ==> run(
            s,
            events,
        ).state.session == s.session,
        aborts(run(s, events).actions) == if run(s, events).state.session
            == SessionState::Aborted && s.session != SessionState::Aborted {
            1nat
        } else {
            0nat
        },
    decreases events.len(),
{
    if events.len() > 0 {
        lemma_abort_count(s, events.drop_last());
        lemma_run_preserves_wf(s, events.drop_last());
        let before = run(s, events.drop_last());
        match next(before.state, events.last()) {
            Some(t) => {
                assert(before.actions.push(t.action).drop_last() =~= before.actions);
            },
            None => {},
        }
    }
}

/// Whatever goes fatally wrong while the session is open, the transfer asks
/// for that session to be aborted, and whatever follows, it asks so once.
pub proof fn lemma_fatal_error_aborts_once(s: TransferView, e: EventView, rest: Seq<EventView>)
    requires
        s.wf(),
        is_fatal(s, e),
    ensures
        s.session == SessionState::Active,
        next(s, e) matches Some(t) && t.action == (ActionView::Abort { token: s.token })
            && t.state.session == SessionState::Aborted,
        aborts(run(s, seq![e] + rest).actions) == 1,
{
    let t = next(s, e).unwrap();
    lemma_run_first(s, e, rest);
    lemma_next_preserves_wf(s, e);
    lemma_abort_count(t.state, rest);
    lemma_aborts_concat(seq![t.action], run(t.state, rest).actions);
    let one = seq![t.action];
    assert(one.drop_last() =~= Seq::<ActionView>::empty());
    assert(one.last() is Abort);
    assert(aborts(one) == aborts(one.drop_last()) + 1);
}

/// From its start to wherever it stands, a transfer has asked for an abort
/// exactly once if its session is aborted, and never otherwise: not without
/// a session, and not once the object has been assembled.
pub proof fn lemma_abort_iff_aborted(threshold: nat, retry_limit: nat, events: Seq<EventView>)
    ensures
        aborts(run(initial(threshold, retry_limit), events).actions) == if run(
            initial(threshold, retry_limit),
            events,
        ).state.session == SessionState::Aborted {
            1nat
        } else {
            0nat
        },
{
    lemma_abort_count(initial(threshold, retry_limit), events);
}

/// A part that failed and is submitted again goes out under the same number
/// with the same bytes, and when it then succeeds the transfer stands where
/// it would stand had the first submission succeeded.
pub proof fn lemma_retry_is_idempotent(s: TransferView, cause: Seq<char>, tag: Seq<char>)
    requires
        s.wf(),
        s.stage == Stage::Uploading,
        s.failures < s.retry_limit,
    ensures
        next(s, EventView::PartUploadFailed { cause }) matches Some(again) && {
            &&& again.action == (ActionView::UploadPart {
                token: s.token,
                part: s.part_in_flight(),
                retry: s.failures + 1,
            })
            &&& next(again.state, EventView::PartUploaded { tag: Some(tag) }) == next(
                s,
                EventView::PartUploaded { tag: Some(tag) },
            )
        },
{
}

/// The events of a part that fails once for each cause given and then
/// succeeds with the tag given.
pub open spec fn failures_then_success(causes: Seq<Seq<char>>, tag: Seq<char>) -> Seq<EventView> {
    Seq::new(causes.len(), |i: int| EventView::PartUploadFailed { cause: causes[i] }).push(
        EventView::PartUploaded { tag: Some(tag) },
    )
}

/// However often a part fails within the retry limit before it succeeds,
/// the transfer ends up in the state of a success at the first attempt,
/// manifest included, and with the same request to its driver.
pub proof fn lemma_retries_leave_no_trace(s: TransferView, causes: Seq<Seq<char>>, tag: Seq<char>)
    requires
        s.wf(),
        s.stage == Stage::Uploading,
        s.failures + causes.len() <= s.retry_limit,
    ensures
        next(s, EventView::PartUploaded { tag: Some(tag) }) matches Some(direct) && {
            &&& run(s, failures_then_success(causes, tag)).state == direct.state
            &&& run(s, failures_then_success(causes, tag)).actions.last() == direct.action
            &&& run(s, failures_then_success(causes, tag)).actions.len() == causes.len() + 1
            &&& forall|i: int|
                0 <= i < causes.len() ==> #[trigger] run(
                    s,
                    failures_then_success(causes, tag),
                ).actions[i] == (ActionView::UploadPart {
                    token: s.token,
                    part: s.part_in_flight(),
                    retry: (s.failures + 1 + i) as nat,
                })
        },
    decreases causes.len(),
{
    let events = failures_then_success(causes, tag);
    let success = EventView::PartUploaded { tag: Some(tag) };
    if causes.len() == 0 {
        assert(events =~= seq![success] + Seq::<EventView>::empty());
        lemma_run_first(s, success, Seq::empty());
        let direct = next(s, success).unwrap();
        assert(run(s, events).actions =~= seq![direct.action]);
    } else {
        let failed = EventView::PartUploadFailed { cause: causes[0] };
        let rest = failures_then_success(causes.drop_first(), tag);
        assert(events =~= seq![failed] + rest);
        lemma_run_first(s, failed, rest);
        let again = next(s, failed).unwrap();
        lemma_next_preserves_wf(s, failed);
        lemma_retries_leave_no_trace(again.state, causes.drop_first(), tag);
        let tail = run(again.state, rest).actions;
        let all = run(s, events).actions;
        assert(all =~= seq![again.action] + tail);
        assert forall|i: int| 0 <= i < causes.len() implies #[trigger] all[i] == (
        ActionView::UploadPart {
            token: s.token,
            part: s.part_in_flight(),
            retry: (s.failures + 1 + i) as nat,
        }) by {
            if i > 0 {
                assert(all[i] == tail[i - 1]);
            }
        }
    }
}

/// The request asks for the part with this number and these bytes to be
/// uploaded.
pub open spec fn is_upload_of(action: ActionView, number: int, bytes: Seq<u8>) -> bool {
    action matches ActionView::UploadPart { part, .. } && part.number == number && part.bytes
        == bytes
}

/// Among the requests is one to upload the part at index `k` under the
/// number `k + 1`.
pub open spec fn requested(actions: Seq<ActionView>, parts: Seq<Seq<u8>>, k: int) -> bool {
    exists|i: int| 0 <= i < actions.len() && is_upload_of(#[trigger] actions[i], k + 1, parts[k])
}

/// The requests made so far agree with the state they have led to.
///
/// Before the session is open nothing but the opening has been asked for.
/// Every upload request carries, under its number, one of the parts cut from
/// the source, and every part cut so far has been asked for. A request to
/// finalize carries the manifest that the state holds, which then lists a
/// tag for every part of the ended source, and such a request has been made
/// where the state awaits its outcome or the session is completed. Requests
/// that name a session name the session of the state. Success has been
/// reported exactly if the session is completed, and a session that is not
/// idle has been asked for.
pub open spec fn faithful(trace: Trace) -> bool {
    let s = trace.state;
    let actions = trace.actions;
    &&& s.stage == Stage::Fetching ==> actions.len() == 0
    &&& s.stage == Stage::Opening ==> actions =~= seq![ActionView::OpenSession]
    &&& forall|i: int|
        0 <= i < actions.len() ==> (#[trigger] actions[i] matches ActionView::UploadPart {
            token,
            part,
            ..
        } ==> {
            &&& token == s.token
            &&& 1 <= part.number <= s.issued().len()
            &&& part.bytes == s.issued()[part.number - 1]
        })
    &&& forall|k: int| 0 <= k < s.issued().len() ==> #[trigger] requested(actions, s.issued(), k)
    &&& forall|i: int|
        0 <= i < actions.len() ==> (#[trigger] actions[i] matches ActionView::Finalize {
            token,
            manifest,
        } ==> {
            &&& token == s.token
            &&& manifest == s.manifest()
            &&& s.exhausted
            &&& s.tags.len() == s.issued().len()
            &&& s.tags.len() > 0
            &&& s.stage == Stage::Finalizing || s.stage == Stage::Aborting || s.stage
                == Stage::Finished
        })
    &&& forall|i: int|
        0 <= i < actions.len() ==> (#[trigger] actions[i] matches ActionView::Abort { token }
            ==> token == s.token)
    &&& s.stage == Stage::Finalizing || s.session == SessionState::Completed
        ==> actions.contains(ActionView::Finalize { token: s.token, manifest: s.manifest() })
    &&& actions.contains(ActionView::ReportSuccess) <==> s.session == SessionState::Completed
    &&& s.session != SessionState::Idle ==> actions.contains(ActionView::OpenSession)
}

/// A step keeps the requests in agreement with the state.
proof fn lemma_step_keeps_faithful(before: Trace, e: EventView)
    requires
        before.state.wf(),
        faithful(before),
        next(before.state, e) is Some,
    ensures
        faithful(
            Trace {
                state: next(before.state, e).unwrap().state,
                actions: before.actions.push(next(before.state, e).unwrap().action),
            },
        ),
{
    let s = before.state;
    let t = next(s, e).unwrap();
    let actions = before.actions.push(t.action);
    let n = before.actions.len() as int;
    lemma_issued_grows(s, e);
    lemma_next_preserves_wf(s, e);
    assert(actions[n] == t.action);
    assert forall|i: int| 0 <= i < n implies #[trigger] actions[i] == before.actions[i] by {}
    assert forall|k: int| 0 <= k < t.state.issued().len() implies #[trigger] requested(
        actions,
        t.state.issued(),
        k,
    ) by {
        if k < s.issued().len() {
            assert(requested(before.actions, s.issued(), k));
            let i = choose|i: int|
                0 <= i < before.actions.len() && is_upload_of(
                    #[trigger] before.actions[i],
                    k + 1,
                    s.issued()[k],
                );
            assert(is_upload_of(actions[i], k + 1, t.state.issued()[k]));
        } else {
            assert(is_upload_of(actions[n], k + 1, t.state.issued()[k]));
        }
    }
    if before.actions.contains(ActionView::ReportSuccess) {
        let i = choose|i: int|
            0 <= i < before.actions.len() && before.actions[i] == ActionView::ReportSuccess;
        assert(actions[i] == ActionView::ReportSuccess);
    }
    if s.stage == Stage::Opening {
        assert(before.actions[0] == ActionView::OpenSession);
    }
    let finalize = ActionView::Finalize { token: s.token, manifest: s.manifest() };
    if before.actions.contains(finalize) {
        let i = choose|i: int| 0 <= i < before.actions.len() && before.actions[i] == finalize;
        assert(actions[i] == finalize);
    }
    if before.actions.contains(ActionView::OpenSession) {
        let i = choose|i: int|
            0 <= i < before.actions.len() && before.actions[i] == ActionView::OpenSession;
        assert(actions[i] == ActionView::OpenSession);
    }
    if actions.contains(ActionView::ReportSuccess) && t.action != ActionView::ReportSuccess {
        let i = choose|i: int| 0 <= i < actions.len() && actions[i] == ActionView::ReportSuccess;
        assert(before.actions[i] == ActionView::ReportSuccess);
    }
}

/// From its start to wherever it stands, a transfer has made requests that
/// agree with its state.
pub proof fn lemma_run_is_faithful(threshold: nat, retry_limit: nat, events: Seq<EventView>)
    ensures
        faithful(run(initial(threshold, retry_limit), events)),
    decreases events.len(),
{
    let start = initial(threshold, retry_limit);
    if events.len() == 0 {
        assert(!Seq::<ActionView>::empty().contains(ActionView::ReportSuccess));
    } else {
        lemma_run_is_faithful(threshold, retry_limit, events.drop_last());
        lemma_run_preserves_wf(start, events.drop_last());
        let before = run(start, events.drop_last());
        if next(before.state, events.last()) is Some {
            lemma_step_keeps_faithful(before, events.last());
        }
    }
}

/// The manifest of any state lists the acknowledged parts by ascending
/// part number: the first entry is part 1, and each entry follows the one
/// before it without a gap or a repeat.
pub proof fn lemma_manifest_is_sequential(s: TransferView)
    ensures
        s.manifest().len() == s.tags.len(),
        is_sequential(s.manifest()),
        forall|i: int, j: int|
            0 <= i < j < s.manifest().len() ==> (#[trigger] s.manifest()[i]).part_number < (
            #[trigger] s.manifest()[j]).part_number,
{
}

/// A request to finalize carries a manifest that is not empty and lists its
/// parts by ascending part number from 1, whatever the state it comes from.
pub proof fn lemma_finalize_manifest(s: TransferView, e: EventView)
    requires
        s.wf(),
    ensures
        next(s, e) matches Some(t) ==> (t.action matches ActionView::Finalize {
            token,
            manifest,
        } ==> {
            &&& token == s.token
            &&& manifest.len() > 0
            &&& is_sequential(manifest)
            &&& manifest.len() == parts_of(t.state.received, s.threshold).len()
        }),
{
    if next(s, e) is Some {
        lemma_next_preserves_wf(s, e);
    }
}

/// Of every transfer that ends in success: the source was cut into at least
/// one part; every part but the last holds at least the threshold of bytes,
/// and with a threshold above zero the last is not empty; the parts, joined
/// in the order of their numbers, are the bytes of the source in the order of
/// their arrival; every part was asked to be uploaded under its number, and
/// nothing else was; and the manifest asked to be finalized lists exactly
/// these parts by ascending part number from 1.
pub proof fn lemma_completed_transfer(threshold: nat, retry_limit: nat, events: Seq<EventView>)
    requires
        run(initial(threshold, retry_limit), events).state.session == SessionState::Completed,
    ensures
        ({
            let end = run(initial(threshold, retry_limit), events);
            let parts = parts_of(end.state.received, threshold);
            &&& parts.len() > 0
            &&& forall|i: int| 0 <= i < parts.len() - 1 ==> (#[trigger] parts[i]).len() >= threshold
            &&& threshold > 0 ==> parts.last().len() > 0
            &&& parts.flatten() == end.state.received.flatten()
            &&& forall|k: int| 0 <= k < parts.len() ==> #[trigger] requested(end.actions, parts, k)
            &&& forall|i: int|
                0 <= i < end.actions.len() ==> (#[trigger] end.actions[i] matches ActionView::UploadPart {
                    part,
                    ..
                } ==> 1 <= part.number <= parts.len() && part.bytes == parts[part.number - 1])
            &&& end.state.manifest().len() == parts.len()
            &&& is_sequential(end.state.manifest())
            &&& end.actions.contains(
                ActionView::Finalize { token: end.state.token, manifest: end.state.manifest() },
            )
            &&& forall|i: int|
                0 <= i < end.actions.len() ==> (#[trigger] end.actions[i] matches ActionView::Finalize {
                    manifest,
                    ..
                } ==> manifest == end.state.manifest())
        }),
{
    let start = initial(threshold, retry_limit);
    let end = run(start, events);
    lemma_run_preserves_wf(start, events);
    lemma_run_is_faithful(threshold, retry_limit, events);
    lemma_part_sizes(end.state.received, threshold);
    lemma_parts_preserve_stream(end.state.received, threshold);
    assert(end.state.issued() == parts_of(end.state.received, threshold));
}

/// Of every transfer whose source has delivered no byte, with a threshold
/// above zero: no part is uploaded, nothing is finalized and no success is
/// reported; and once the source has ended, the session has been asked for
/// and aborted, the abort having been requested exactly once.
pub proof fn lemma_empty_source_is_aborted(
    threshold: nat,
    retry_limit: nat,
    events: Seq<EventView>,
)
    requires
        threshold > 0,
        run(initial(threshold, retry_limit), events).state.received.flatten().len() == 0,
    ensures
        ({
            let end = run(initial(threshold, retry_limit), events);
            &&& forall|i: int|
                0 <= i < end.actions.len() ==> {
                    &&& !(#[trigger] end.actions[i] is UploadPart)
                    &&& !(end.actions[i] is Finalize)
                    &&& !(end.actions[i] is ReportSuccess)
                }
            &&& end.state.session != SessionState::Completed
            &&& end.state.exhausted ==> {
                &&& end.actions.contains(ActionView::OpenSession)
                &&& end.state.session == SessionState::Aborted
                &&& aborts(end.actions) == 1
            }
        }),
{
    let start = initial(threshold, retry_limit);
    let end = run(start, events);
    lemma_run_preserves_wf(start, events);
    lemma_run_is_faithful(threshold, retry_limit, events);
    lemma_abort_iff_aborted(threshold, retry_limit, events);
    lemma_no_parts_iff_no_bytes(end.state.received, threshold);
    assert(end.state.issued().len() == 0);
    assert forall|i: int| 0 <= i < end.actions.len() implies !(#[trigger] end.actions[i]
        is ReportSuccess) by {
        if end.actions[i] is ReportSuccess {
            assert(end.actions[i] == ActionView::ReportSuccess);
            assert(end.actions.contains(ActionView::ReportSuccess));
        }
    }
}

} // verus!
