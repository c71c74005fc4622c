//! Regrouping of a chunked byte stream into upload parts of a minimum size.
//!
//! A source delivers its bytes in chunks of whatever size suits it. A
//! multipart upload wants parts that each hold at least a threshold of bytes,
//! the last one excepted. [`PartAccumulator`] sits between the two: it appends
//! each chunk to a buffer and hands the buffer out as a numbered [`Part`] as
//! soon as it has reached the threshold.

use vstd::prelude::*;

verus! {

/// What a run of chunks has been regrouped into: the parts already filled,
/// oldest first, and the bytes still waiting for a part of their own.
pub struct Regrouped {
    pub parts: Seq<Seq<u8>>,
    pub pending: Seq<u8>,
}

/// Appends one chunk to the waiting bytes, and closes a part as soon as the
/// waiting bytes reach the threshold.
pub open spec fn absorb(before: Regrouped, chunk: Seq<u8>, threshold: nat) -> Regrouped {
    let filled = before.pending + chunk;
    if filled.len() >= threshold {
        Regrouped { parts: before.parts.push(filled), pending: Seq::empty() }
    } else {
        Regrouped { parts: before.parts, pending: filled }
    }
}

/// The regrouping of a whole run of chunks, taken in order.
pub open spec fn regroup(chunks: Seq<Seq<u8>>, threshold: nat) -> Regrouped
    decreases chunks.len(),
{
    if chunks.len() == 0 {
        Regrouped { parts: Seq::empty(), pending: Seq::empty() }
    } else {
        absorb(regroup(chunks.drop_last(), threshold), chunks.last(), threshold)
    }
}

/// The parts of a regrouping once the source has ended: the filled parts,
/// followed by the waiting bytes as a last part if there are any.
pub open spec fn flush(r: Regrouped) -> Seq<Seq<u8>> {
    if r.pending.len() > 0 {
        r.parts.push(r.pending)
    } else {
        r.parts
    }
}

/// Every part that a finite stream of chunks is uploaded as, in order. The
/// part at index `i` carries the part number `i + 1`.
pub open spec fn parts_of(chunks: Seq<Seq<u8>>, threshold: nat) -> Seq<Seq<u8>> {
    flush(regroup(chunks, threshold))
}

/// Filled parts hold at least the threshold, fewer bytes than the threshold
/// are waiting, no byte is lost or repeated, and no chunk fills more than one
/// part.
pub proof fn lemma_regroup(chunks: Seq<Seq<u8>>, threshold: nat)
    ensures
        forall|i: int|
            0 <= i < regroup(chunks, threshold).parts.len() ==> (#[trigger] regroup(
                chunks,
                threshold,
            ).parts[i]).len() >= threshold,
        threshold > 0 ==> regroup(chunks, threshold).pending.len() < threshold,
        threshold == 0 ==> regroup(chunks, threshold).pending.len() == 0,
        regroup(chunks, threshold).parts.flatten() + regroup(chunks, threshold).pending
            == chunks.flatten(),
        regroup(chunks, threshold).parts.len() <= chunks.len(),
    decreases chunks.len(),
{
    broadcast use Seq::lemma_flatten_push;

    if chunks.len() == 0 {
        assert(chunks.flatten() =~= Seq::<u8>::empty());
        assert(Seq::<Seq<u8>>::empty().flatten() + Seq::<u8>::empty() =~= Seq::<u8>::empty());
    } else {
        let head = chunks.drop_last();
        let before = regroup(head, threshold);
        let after = regroup(chunks, threshold);
        let filled = before.pending + chunks.last();
        lemma_regroup(head, threshold);
        assert(chunks =~= head.push(chunks.last()));
        assert(chunks.flatten() == head.flatten() + chunks.last());
        if filled.len() >= threshold {
            assert(after.parts.flatten() == before.parts.flatten() + filled);
            assert(after.parts.flatten() + after.pending =~= (before.parts.flatten()
                + before.pending) + chunks.last());
        } else {
            assert(after.parts.flatten() + after.pending =~= (before.parts.flatten()
                + before.pending) + chunks.last());
        }
    }
}

/// Every part but the last holds at least the threshold of bytes, and with a
/// threshold above zero no part is empty.
pub proof fn lemma_part_sizes(chunks: Seq<Seq<u8>>, threshold: nat)
    ensures
        forall|i: int|
            0 <= i < parts_of(chunks, threshold).len() - 1 ==> (#[trigger] parts_of(
                chunks,
                threshold,
            )[i]).len() >= threshold,
        threshold > 0 ==> forall|i: int|
            0 <= i < parts_of(chunks, threshold).len() ==> (#[trigger] parts_of(
                chunks,
                threshold,
            )[i]).len() > 0,
{
    lemma_regroup(chunks, threshold);
    let r = regroup(chunks, threshold);
    let parts = parts_of(chunks, threshold);
    assert forall|i: int| 0 <= i < parts.len() - 1 implies (#[trigger] parts[i]).len()
        >= threshold by {
        assert(parts[i] == r.parts[i]);
    }
    if threshold > 0 {
        assert forall|i: int| 0 <= i < parts.len() implies (#[trigger] parts[i]).len() > 0 by {
            if i < r.parts.len() {
                assert(parts[i] == r.parts[i]);
            }
        }
    }
}

/// The parts of a stream, joined in the order of their numbers, are the
/// chunks of the stream joined in the order of their arrival.
pub proof fn lemma_parts_preserve_stream(chunks: Seq<Seq<u8>>, threshold: nat)
    ensures
        parts_of(chunks, threshold).flatten() == chunks.flatten(),
{
    broadcast use Seq::lemma_flatten_push;

    lemma_regroup(chunks, threshold);
    let r = regroup(chunks, threshold);
    if r.pending.len() == 0 {
        assert(r.parts.flatten() + r.pending =~= r.parts.flatten());
    }
}

/// A stream that has bytes has parts, and with a threshold above zero a
/// stream without a byte has none: none filled on the way and none left at
/// the end.
pub proof fn lemma_no_parts_iff_no_bytes(chunks: Seq<Seq<u8>>, threshold: nat)
    ensures
        parts_of(chunks, threshold).len() == 0 ==> chunks.flatten().len() == 0,
        threshold > 0 && chunks.flatten().len() == 0 ==> {
            &&& parts_of(chunks, threshold).len() == 0
            &&& regroup(chunks, threshold).parts.len() == 0
        },
{
    lemma_regroup(chunks, threshold);
    lemma_parts_preserve_stream(chunks, threshold);
    lemma_part_sizes(chunks, threshold);
    let parts = parts_of(chunks, threshold);
    if parts.len() == 0 {
        assert(parts.flatten() =~= Seq::<u8>::empty());
    }
    if threshold > 0 && chunks.flatten().len() == 0 && parts.len() > 0 {
        parts.lemma_flatten_length_ge_single_element_length(0);
    }
}

/// One numbered unit of a multipart upload.
#[derive(Debug)]
pub struct Part {
    /// Position of the part in the object, counted from 1.
    pub number: u32,
    /// The bytes of the part.
    pub bytes: Vec<u8>,
}

/// A part as a plain value.
pub struct PartView {
    pub number: nat,
    pub bytes: Seq<u8>,
}

impl View for Part {
    type V = PartView;

    open spec fn view(&self) -> PartView {
        PartView { number: self.number as nat, bytes: self.bytes@ }
    }
}

/// Collects chunks and hands out a part whenever enough bytes are waiting.
///
/// Part numbers come from a single counter that starts at 1 and moves by one
/// with each part handed out, so they have neither gaps nor repeats.
pub struct PartAccumulator {
    threshold: usize,
    buffer: Vec<u8>,
    emitted: u32,
    consumed: Ghost<Seq<Seq<u8>>>,
}

impl PartAccumulator {
    /// The buffer and the part counter agree with the chunks taken so far.
    pub closed spec fn wf(&self) -> bool {
        let r = regroup(self.consumed@, self.threshold as nat);
        &&& self.buffer@ == r.pending
        &&& self.emitted as nat == r.parts.len()
    }

    /// The least number of bytes in a part that is not the last.
    pub closed spec fn threshold(&self) -> nat {
        self.threshold as nat
    }

    /// The chunks taken so far, oldest first.
    pub closed spec fn chunks(&self) -> Seq<Seq<u8>> {
        self.consumed@
    }

    /// The regrouping of the chunks taken so far.
    pub open spec fn state(&self) -> Regrouped {
        regroup(self.chunks(), self.threshold())
    }

    /// Whether the part counter can number the part, if any, that a chunk of
    /// `len` bytes would close.
    pub open spec fn has_room_for(&self, len: nat) -> bool {
        self.state().pending.len() + len >= self.threshold() ==> self.state().parts.len()
            < u32::MAX
    }

    /// An accumulator that has seen no chunk yet.
    pub fn new(threshold: usize) -> (acc: Self)
        ensures
            acc.wf(),
            acc.threshold() == threshold,
            acc.chunks() == Seq::<Seq<u8>>::empty(),
    {
        PartAccumulator { threshold, buffer: Vec::new(), emitted: 0, consumed: Ghost(Seq::empty()) }
    }

    /// The configured threshold in bytes.
    pub fn threshold_bytes(&self) -> (n: usize)
        ensures
            n == self.threshold(),
    {
        self.threshold
    }

    /// The number of bytes waiting for a part.
    pub fn buffered_len(&self) -> (n: usize)
        requires
            self.wf(),
        ensures
            n == self.state().pending.len(),
    {
        self.buffer.len()
    }

    /// The number of parts handed out so far, which is also the number of the
    /// latest one.
    pub fn parts_emitted(&self) -> (n: u32)
        requires
            self.wf(),
        ensures
            n == self.state().parts.len(),
    {
        self.emitted
    }

    /// Takes the next chunk of the stream. Returns the part that the chunk
    /// closed, if the waiting bytes have reached the threshold with it.
    pub fn push_chunk(&mut self, chunk: &[u8]) -> (part: Option<Part>)
        requires
            old(self).wf(),
            old(self).has_room_for(chunk@.len()),
        ensures
            final(self).wf(),
            final(self).threshold() == old(self).threshold(),
            final(self).chunks() == old(self).chunks().push(chunk@),
            final(self).state() == absorb(old(self).state(), chunk@, old(self).threshold()),
            part is Some <==> old(self).state().pending.len() + chunk@.len() >= old(
                self,
            ).threshold(),
            part matches Some(p) ==> {
                &&& p.number == old(self).state().parts.len() + 1
                &&& p.bytes@ == old(self).state().pending + chunk@
            },
    {
        self.buffer.extend_from_slice(chunk);
        proof {
            self.consumed@ = self.consumed@.push(chunk@);
            assert(self.consumed@.drop_last() =~= old(self).consumed@);
            assert(self.buffer@ =~= old(self).buffer@ + chunk@);
        }
        if self.buffer.len() >= self.threshold {
            let mut bytes: Vec<u8> = Vec::new();
            core::mem::swap(&mut self.buffer, &mut bytes);
            self.emitted = self.emitted + 1;
            Some(Part { number: self.emitted, bytes })
        } else {
            None
        }
    }

    /// Ends the stream. Returns the waiting bytes as the last part, whatever
    /// their number, or nothing if no byte is waiting.
    pub fn finish(self) -> (part: Option<Part>)
        requires
            self.wf(),
            self.state().pending.len() > 0 ==> self.state().parts.len() < u32::MAX,
        ensures
            part is Some <==> self.state().pending.len() > 0,
            part matches Some(p) ==> {
                &&& p.number == parts_of(self.chunks(), self.threshold()).len()
                &&& p.bytes@ == parts_of(self.chunks(), self.threshold()).last()
                &&& p.bytes@ == self.state().pending
            },
    {
        if self.buffer.len() > 0 {
            Some(Part { number: self.emitted + 1, bytes: self.buffer })
        } else {
            None
        }
    }
}

} // verus!
