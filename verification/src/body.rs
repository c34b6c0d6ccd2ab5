use vstd::prelude::*;
use crate::message::Header;

verus! {

/// The transport's native response body, modelled as the chunk stream
/// the peer emits: every data chunk in wire order, the optional
/// trailing headers, the content length the transport knows from
/// framing, and a cursor marking how much the consumer has read.
#[derive(Debug)]
pub struct TransportBody {
    /// Every data chunk the peer emits, in wire order.
    pub chunks: Vec<Vec<u8>>,
    /// Trailing headers; present until they are handed out.
    pub trailers: Option<Vec<Header>>,
    /// The content length the transport knows from framing, if any.
    pub known_len: Option<u64>,
    /// How many chunks have been yielded so far.
    pub read: usize,
}

impl TransportBody {
    /// The whole chunk stream, chunk by chunk, as byte sequences.
    pub open spec fn stream(self) -> Seq<Seq<u8>> {
        self.chunks@.map_values(|c: Vec<u8>| c@)
    }

    /// The chunks not yet yielded.
    pub open spec fn remaining(self) -> Seq<Seq<u8>> {
        self.stream().skip(self.read as int)
    }

    /// The chunks already yielded, in the order they were yielded.
    pub open spec fn yielded(self) -> Seq<Seq<u8>> {
        self.stream().take(self.read as int)
    }

    pub open spec fn wf(self) -> bool {
        self.read <= self.chunks@.len()
    }

    /// End of stream: no data left and no trailers left.
    pub open spec fn spec_end_stream(self) -> bool {
        self.read == self.chunks@.len() && self.trailers is None
    }

    /// Builds a body that has emitted nothing yet.
    pub fn new(chunks: Vec<Vec<u8>>, trailers: Option<Vec<Header>>, known_len: Option<u64>) -> (r:
        TransportBody)
        ensures
            r.chunks == chunks,
            r.trailers == trailers,
            r.known_len == known_len,
            r.read == 0,
            r.wf(),
    {
        TransportBody { chunks, trailers, known_len, read: 0 }
    }

    /// Yields the next data chunk, or nothing once the data is done.
    /// The stream itself, the trailers and the known length are
    /// untouched; only the cursor moves.
    pub fn poll_data(&mut self) -> (r: Option<Vec<u8>>)
        requires
            old(self).wf(),
        ensures
            final(self).wf(),
            final(self).chunks == old(self).chunks,
            final(self).trailers == old(self).trailers,
            final(self).known_len == old(self).known_len,
            old(self).read < old(self).chunks@.len() ==> {
                &&& final(self).read == old(self).read + 1
                &&& r matches Some(c) && c@ == old(self).stream()[old(self).read as int]
            },
            old(self).read >= old(self).chunks@.len() ==> {
                &&& final(self).read == old(self).read
                &&& r is None
            },
    {
        if self.read < self.chunks.len() {
            let c = self.chunks[self.read].clone();
            proof {
                assert forall|i: int| 0 <= i < c@.len() implies c@[i]
                    == self.chunks@[self.read as int]@[i] by {
                    assert(cloned::<u8>(self.chunks@[self.read as int]@[i], c@[i]));
                }
                assert(c@ =~= self.chunks@[self.read as int]@);
            }
            self.read = self.read + 1;
            Some(c)
        } else {
            None
        }
    }

    /// Hands out the trailing headers, once, after the end of the data.
    pub fn poll_trailers(&mut self) -> (r: Option<Vec<Header>>)
        requires
            old(self).wf(),
            old(self).read == old(self).chunks@.len(),
        ensures
            final(self).wf(),
            final(self).chunks == old(self).chunks,
            final(self).read == old(self).read,
            final(self).known_len == old(self).known_len,
            r == old(self).trailers,
            final(self).trailers is None,
    {
        self.trailers.take()
    }

    /// End-of-stream inspector: true once all data and trailers are out.
    pub fn is_end_stream(&self) -> (r: bool)
        ensures
            r == self.spec_end_stream(),
    {
        self.read == self.chunks.len() && self.trailers.is_none()
    }

    /// Content-length inspector: what the transport knows from framing.
    pub fn content_length(&self) -> (r: Option<u64>)
        ensures
            r == self.known_len,
    {
        self.known_len
    }
}

/// A transport body re-exposed under the stack's common body contract:
/// a one-to-one forwarding wrapper. Every operation delegates to the
/// inner transport body and changes nothing on the way through.
#[derive(Debug)]
pub struct LiftBody {
    pub inner: TransportBody,
}

impl LiftBody {
    /// The whole chunk stream: exactly the inner body's.
    pub open spec fn stream(self) -> Seq<Seq<u8>> {
        self.inner.stream()
    }

    /// The chunks not yet yielded: exactly the inner body's.
    pub open spec fn remaining(self) -> Seq<Seq<u8>> {
        self.inner.remaining()
    }

    /// The chunks already yielded: exactly the inner body's.
    pub open spec fn yielded(self) -> Seq<Seq<u8>> {
        self.inner.yielded()
    }

    /// The trailers still to be handed out: exactly the inner body's.
    pub open spec fn spec_trailers(self) -> Option<Vec<Header>> {
        self.inner.trailers
    }

    pub open spec fn wf(self) -> bool {
        self.inner.wf()
    }

    /// Wraps a transport body without touching it.
    pub fn new(inner: TransportBody) -> (r: LiftBody)
        ensures
            r.inner == inner,
    {
        LiftBody { inner }
    }

    /// Forwards a data poll to the inner body, one to one.
    pub fn poll_data(&mut self) -> (r: Option<Vec<u8>>)
        requires
            old(self).wf(),
        ensures
            final(self).wf(),
            final(self).inner.chunks == old(self).inner.chunks,
            final(self).inner.trailers == old(self).inner.trailers,
            final(self).inner.known_len == old(self).inner.known_len,
            old(self).inner.read < old(self).inner.chunks@.len() ==> {
                &&& final(self).inner.read == old(self).inner.read + 1
                &&& r matches Some(c) && c@ == old(self).stream()[old(self).inner.read as int]
            },
            old(self).inner.read >= old(self).inner.chunks@.len() ==> {
                &&& final(self).inner.read == old(self).inner.read
                &&& r is None
            },
    {
        self.inner.poll_data()
    }

    /// Forwards a trailer poll to the inner body, one to one.
    pub fn poll_trailers(&mut self) -> (r: Option<Vec<Header>>)
        requires
            old(self).wf(),
            old(self).inner.read == old(self).inner.chunks@.len(),
        ensures
            final(self).wf(),
            final(self).inner.chunks == old(self).inner.chunks,
            final(self).inner.read == old(self).inner.read,
            final(self).inner.known_len == old(self).inner.known_len,
            r == old(self).spec_trailers(),
            final(self).spec_trailers() is None,
    {
        self.inner.poll_trailers()
    }

    /// Forwards the end-of-stream inspector.
    pub fn is_end_stream(&self) -> (r: bool)
        ensures
            r == self.inner.spec_end_stream(),
    {
        self.inner.is_end_stream()
    }

    /// Forwards the content-length inspector.
    pub fn content_length(&self) -> (r: Option<u64>)
        ensures
            r == self.inner.known_len,
    {
        self.inner.content_length()
    }
}

/// Body equivalence: lifting a transport body changes nothing that can
/// be observed through the body contract. The lifted body's chunk
/// stream — yielded and still to come — its trailers and its known
/// length are exactly the inner body's, and every poll forwards one to
/// one (see the contracts of `LiftBody::poll_data` and
/// `LiftBody::poll_trailers`, which repeat the inner body's verbatim).
pub proof fn lemma_body_equivalence(b: TransportBody)
    ensures
        (LiftBody { inner: b }).stream() == b.stream(),
        (LiftBody { inner: b }).remaining() == b.remaining(),
        (LiftBody { inner: b }).yielded() == b.yielded(),
        (LiftBody { inner: b }).spec_trailers() == b.trailers,
        (LiftBody { inner: b }).inner.known_len == b.known_len,
        (LiftBody { inner: b }).inner.spec_end_stream() == b.spec_end_stream(),
{
}

} // verus!
