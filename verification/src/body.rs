//! Incremental accumulation of a request body delivered as byte chunks.
//!
//! A `BodyAccumulator` is owned by exactly one in-flight request. Chunks are
//! appended in arrival order; the buffer is read only once the stream has
//! signalled completion. A stream that breaks before completion yields
//! `TransportError` and no partial data; a configurable cap, when set, turns
//! an over-long body into `PayloadTooLarge` with nothing ingested. After
//! finalisation the bytes are decoded as UTF-8; undecodable bytes degrade to
//! a fixed sentinel text instead of failing the request.

use vstd::prelude::*;
use vstd::utf8::decode_utf8;
use vstd::utf8::valid_utf8;

verus! {

/// How body ingestion can fail. Decoding trouble is not a failure: it
/// degrades to `sentinel_text`. The underlying cause of a broken stream
/// stays with the transport layer that observed it.
#[derive(Clone, Copy, PartialEq, Eq, Structural, Debug)]
pub enum BodyError {
    /// The stream broke before signalling end-of-stream.
    TransportError,
    /// The configured cap was exceeded; nothing was ingested.
    PayloadTooLarge,
}

/// One observation made on the body stream.
pub enum BodyEvent {
    /// A chunk of bytes arrived.
    Chunk(Vec<u8>),
    /// The stream completed.
    End,
    /// The stream broke.
    Fail,
}

/// Whether a body of `len` bytes oversteps the cap.
pub open spec fn exceeds(len: nat, limit: Option<usize>) -> bool {
    match limit {
        Some(l) => len > l,
        None => false,
    }
}

/// What consuming `events` yields, starting from the already-gathered bytes
/// `acc`: chunks are appended in arrival order until the first terminator.
/// `End` exposes the gathered bytes; a break — or exhaustion of the stream
/// with no terminator at all — yields `TransportError`; a chunk that pushes
/// the total over the cap yields `PayloadTooLarge`.
pub open spec fn consumed(events: Seq<BodyEvent>, acc: Seq<u8>, limit: Option<usize>) -> Result<
    Seq<u8>,
    BodyError,
>
    decreases events.len(),
{
    if events.len() == 0 {
        Err(BodyError::TransportError)
    } else {
        match events[0] {
            BodyEvent::End => Ok(acc),
            BodyEvent::Fail => Err(BodyError::TransportError),
            BodyEvent::Chunk(c) => if exceeds(acc.len() + c@.len(), limit) {
                Err(BodyError::PayloadTooLarge)
            } else {
                consumed(events.drop_first(), acc + c@, limit)
            },
        }
    }
}

/// The per-request body buffer: grows monotonically as chunks are fed,
/// within the optional cap.
pub struct BodyAccumulator {
    buf: Vec<u8>,
    limit: Option<usize>,
}

impl BodyAccumulator {
    /// The bytes gathered so far.
    pub closed spec fn bytes(self) -> Seq<u8> {
        self.buf@
    }

    /// The configured cap, if any.
    pub closed spec fn cap(self) -> Option<usize> {
        self.limit
    }

    /// An empty accumulator without a cap: bodies of any length are taken.
    pub fn new() -> (a: Self)
        ensures
            a.bytes() == Seq::<u8>::empty(),
            a.cap() is None,
    {
        BodyAccumulator { buf: Vec::new(), limit: None }
    }

    /// An empty accumulator that refuses bodies longer than `limit` bytes.
    pub fn with_limit(limit: usize) -> (a: Self)
        ensures
            a.bytes() == Seq::<u8>::empty(),
            a.cap() == Some(limit),
    {
        BodyAccumulator { buf: Vec::new(), limit: Some(limit) }
    }

    /// Append one arrived chunk. A chunk that would push the total over the
    /// cap discards the buffer and reports `PayloadTooLarge`: no partial
    /// ingestion.
    pub fn feed(&mut self, chunk: &[u8]) -> (r: Result<(), BodyError>)
        ensures
            final(self).cap() == old(self).cap(),
            r is Ok <==> !exceeds(old(self).bytes().len() + chunk@.len(), old(self).cap()),
            r is Ok ==> final(self).bytes() == old(self).bytes() + chunk@,
            r is Err ==> r.unwrap_err() == BodyError::PayloadTooLarge && final(self).bytes()
                == Seq::<u8>::empty(),
    {
        let too_large = match self.limit {
            Some(l) => chunk.len() > l || self.buf.len() > l - chunk.len(),
            None => false,
        };
        if too_large {
            self.buf = Vec::new();
            return Err(BodyError::PayloadTooLarge);
        }
        let mut i: usize = 0;
        while i < chunk.len()
            invariant
                i <= chunk@.len(),
                self.buf@ == old(self).bytes() + chunk@.subrange(0, i as int),
                self.limit == old(self).cap(),
            decreases chunk@.len() - i,
        {
            self.buf.push(chunk[i]);
            assert(self.buf@ =~= old(self).bytes() + chunk@.subrange(0, i as int + 1));
            i = i + 1;
        }
        assert(self.buf@ =~= old(self).bytes() + chunk@);
        Ok(())
    }

    /// End-of-stream: hand the complete buffer over. The accumulator is
    /// consumed; the result is immutable from the caller's point of view.
    pub fn finish(self) -> (b: Vec<u8>)
        ensures
            b@ == self.bytes(),
    {
        self.buf
    }

    /// Stream error: discard the buffer. Nothing of the partial body is
    /// ever exposed.
    pub fn abort(self) {
    }
}

/// Drive a fresh accumulator over a whole sequence of stream observations,
/// exactly as `consumed` describes.
pub fn consume(events: &Vec<BodyEvent>, limit: Option<usize>) -> (r: Result<Vec<u8>, BodyError>)
    ensures
        match consumed(events@, Seq::<u8>::empty(), limit) {
            Ok(b) => r is Ok && r.unwrap()@ == b,
            Err(e) => r is Err && r.unwrap_err() == e,
        },
{
    let mut acc = match limit {
        Some(l) => BodyAccumulator::with_limit(l),
        None => BodyAccumulator::new(),
    };
    let mut i: usize = 0;
    proof {
        assert(events@.skip(0) =~= events@);
    }
    while i < events.len()
        invariant
            i <= events@.len(),
            acc.cap() == limit,
            consumed(events@.skip(i as int), acc.bytes(), limit) == consumed(
                events@,
                Seq::<u8>::empty(),
                limit,
            ),
        decreases events@.len() - i,
    {
        proof {
            assert(events@.skip(i as int)[0] == events@[i as int]);
            assert(events@.skip(i as int).drop_first() =~= events@.skip(i as int + 1));
        }
        match &events[i] {
            BodyEvent::End => {
                return Ok(acc.finish());
            },
            BodyEvent::Fail => {
                acc.abort();
                return Err(BodyError::TransportError);
            },
            BodyEvent::Chunk(c) => {
                match acc.feed(c.as_slice()) {
                    Ok(()) => {},
                    Err(e) => {
                        return Err(e);
                    },
                }
            },
        }
        i = i + 1;
    }
    acc.abort();
    Err(BodyError::TransportError)
}

/// The bytes carried by the leading all-chunk prefix of `events`: what a
/// terminator arriving after them would expose.
pub open spec fn gathered_bytes(events: Seq<BodyEvent>) -> Seq<u8>
    decreases events.len(),
{
    if events.len() == 0 {
        Seq::<u8>::empty()
    } else {
        match events[0] {
            BodyEvent::Chunk(c) => c@ + gathered_bytes(events.drop_first()),
            BodyEvent::End => Seq::<u8>::empty(),
            BodyEvent::Fail => Seq::<u8>::empty(),
        }
    }
}

/// Law: over a stream of chunks that stays within the cap, starting from the
/// gathered bytes `acc`: completion exposes exactly `acc` followed by every
/// chunk in arrival order; a stream that is truncated — exhausted or broken
/// before end-of-stream — yields `TransportError`, and in particular never
/// exposes the partial data.
pub proof fn lemma_consumed_chunk_stream(events: Seq<BodyEvent>, acc: Seq<u8>, limit: Option<
    usize,
>)
    requires
        forall|i: int| 0 <= i < events.len() ==> events[i] is Chunk,
        !exceeds(acc.len() + gathered_bytes(events).len(), limit),
    ensures
        consumed(events.push(BodyEvent::End), acc, limit) == Ok::<Seq<u8>, BodyError>(
            acc + gathered_bytes(events),
        ),
        consumed(events, acc, limit) == Err::<Seq<u8>, BodyError>(BodyError::TransportError),
        consumed(events.push(BodyEvent::Fail), acc, limit) == Err::<Seq<u8>, BodyError>(
            BodyError::TransportError,
        ),
    decreases events.len(),
{
    if events.len() == 0 {
        assert(events.push(BodyEvent::End)[0] is End);
        assert(events.push(BodyEvent::Fail)[0] is Fail);
        assert(acc + gathered_bytes(events) =~= acc);
    } else {
        let c = events[0]->Chunk_0;
        let rest = events.drop_first();
        assert(gathered_bytes(events) == c@ + gathered_bytes(rest));
        assert((acc + c@).len() + gathered_bytes(rest).len() == acc.len() + gathered_bytes(
            events,
        ).len());
        lemma_consumed_chunk_stream(rest, acc + c@, limit);
        assert(events.push(BodyEvent::End)[0] == events[0]);
        assert(events.push(BodyEvent::End).drop_first() =~= rest.push(BodyEvent::End));
        assert(events.push(BodyEvent::Fail)[0] == events[0]);
        assert(events.push(BodyEvent::Fail).drop_first() =~= rest.push(BodyEvent::Fail));
        assert(acc + gathered_bytes(events) =~= (acc + c@) + gathered_bytes(rest));
    }
}

/// Relies on core::str::from_utf8: it returns `Ok` exactly on bytes that
/// form a valid UTF-8 encoding, and the characters of the resulting string
/// slice are the UTF-8 decoding of those bytes (vstd's `decode_utf8`).
#[verifier::external_body]
fn utf8_to_str(v: &[u8]) -> (r: Option<&str>)
    ensures
        r is Some <==> valid_utf8(v@),
        r is Some ==> r.unwrap()@ == decode_utf8(v@),
{
    core::str::from_utf8(v).ok()
}

/// The fixed placeholder shown when a body cannot be decoded as text.
pub open spec fn sentinel_text() -> Seq<char> {
    "body not displayed — invalid text encoding"@
}

/// The text a finalized body is displayed as: its UTF-8 decoding when the
/// bytes are valid UTF-8, the fixed sentinel otherwise.
pub open spec fn body_text_of(bytes: Seq<u8>) -> Seq<char> {
    if valid_utf8(bytes) {
        decode_utf8(bytes)
    } else {
        sentinel_text()
    }
}

/// Decode a finalized body buffer. Undecodable bytes never fail the
/// request: they degrade to the sentinel text.
pub fn body_text(bytes: &[u8]) -> (t: String)
    ensures
        t@ == body_text_of(bytes@),
{
    match utf8_to_str(bytes) {
        Some(s) => s.to_owned(),
        None => "body not displayed — invalid text encoding".to_owned(),
    }
}

/// Law: the sentinel is distinguishable from a real empty body — an empty
/// buffer decodes to the empty text, while the sentinel text is non-empty.
pub proof fn lemma_sentinel_distinct_from_empty_body()
    ensures
        body_text_of(Seq::<u8>::empty()) == Seq::<char>::empty(),
        sentinel_text().len() > 0,
{
    reveal_strlit("body not displayed — invalid text encoding");
    assert(decode_utf8(Seq::<u8>::empty()) =~= Seq::<char>::empty());
}

} // verus!
