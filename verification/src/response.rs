use vstd::prelude::*;
use crate::TransportError;
use crate::body::LiftBody;
use crate::body::TransportBody;
use crate::message::ResponseHead;

verus! {

/// What one poll of the transport's pending response reported: still
/// nothing, the whole response head with its native body, or a
/// failure of this request.
pub enum ResponseEvent {
    Pending,
    Headers(ResponseHead, TransportBody),
    Failed(TransportError),
}

/// A surfaced response: the head exactly as the peer sent it, and the
/// native body re-exposed under the stack's common body contract.
#[derive(Debug)]
pub struct Response {
    pub head: ResponseHead,
    pub body: LiftBody,
}

/// What one poll of a response future answers its caller.
#[derive(Debug)]
pub enum ResponsePoll {
    Pending,
    Ready(Response),
    Failed(TransportError),
}

/// Whether a transport report resolves the future: anything but a
/// pending report does.
pub open spec fn resolves(event: ResponseEvent) -> bool {
    !(event matches ResponseEvent::Pending)
}

/// Surfaces a transport response: the status, version and headers are
/// passed through verbatim; only the body is replaced, by the lifted
/// wrapper around the very body the transport produced.
pub fn lift_response(head: ResponseHead, body: TransportBody) -> (r: Response)
    ensures
        r.head == head,
        r.body.inner == body,
{
    Response { head, body: LiftBody::new(body) }
}

/// A single-shot handle for the response to one issued request. It
/// resolves at most once; `id` ties it to its place in the adapter's
/// transmit order.
#[derive(Debug)]
pub struct ResponseFuture {
    /// The request's id: its position in the transmit order.
    pub id: usize,
    /// Whether the future has already yielded its one result.
    pub resolved: bool,
}

impl ResponseFuture {
    /// One poll. The caller hands in what the transport reported for
    /// this request; a pending report leaves the future unresolved,
    /// anything else resolves it for good. On success the response
    /// head comes through verbatim and only the body is substituted
    /// (by the lifted wrapper); on failure the transport's error
    /// comes through unchanged. Polling an already resolved future is
    /// a contract violation, excluded here by `requires`.
    pub fn poll(&mut self, event: ResponseEvent) -> (r: ResponsePoll)
        requires
            !old(self).resolved,
        ensures
            final(self).id == old(self).id,
            final(self).resolved == resolves(event),
            event matches ResponseEvent::Pending ==> r matches ResponsePoll::Pending,
            event matches ResponseEvent::Headers(head, body) ==> {
                &&& r matches ResponsePoll::Ready(resp)
                &&& resp.head == head
                &&& resp.body.inner == body
            },
            event matches ResponseEvent::Failed(e) ==> r == ResponsePoll::Failed(e),
    {
        match event {
            ResponseEvent::Pending => ResponsePoll::Pending,
            ResponseEvent::Headers(head, body) => {
                self.resolved = true;
                ResponsePoll::Ready(lift_response(head, body))
            },
            ResponseEvent::Failed(e) => {
                self.resolved = true;
                ResponsePoll::Failed(e)
            },
        }
    }
}

/// A legal sequence of polls of one response future: each poll is made
/// while the future is still unresolved (the `requires` of
/// `ResponseFuture::poll`), starting from the given resolution flag.
pub open spec fn legal_polls(resolved: bool, events: Seq<ResponseEvent>) -> bool
    decreases events.len(),
{
    events.len() == 0 || (!resolved && legal_polls(
        resolved || resolves(events[0]),
        events.drop_first(),
    ))
}

/// One response per call: in any legal sequence of polls of one
/// response future, at most one poll resolves it, and only the last
/// can — every earlier poll saw a pending report. Polling after
/// resolution is a contract violation, excluded by the `requires` of
/// `ResponseFuture::poll`.
pub proof fn lemma_one_response_per_call(events: Seq<ResponseEvent>)
    requires
        legal_polls(false, events),
    ensures
        forall|i: int| 0 <= i < events.len() - 1 ==> !resolves(#[trigger] events[i]),
    decreases events.len(),
{
    if events.len() > 1 {
        if resolves(events[0]) {
            assert(legal_polls(true, events.drop_first()));
            assert(events.drop_first().len() > 0);
            assert(false);
        }
        lemma_one_response_per_call(events.drop_first());
        assert forall|i: int| 0 <= i < events.len() - 1 implies !resolves(
            #[trigger] events[i],
        ) by {
            if i > 0 {
                assert(events[i] == events.drop_first()[i - 1]);
            }
        }
    }
}

} // verus!
