use vstd::prelude::*;
use crate::ErrorKind;
use crate::TransportError;
use crate::response::ResponseFuture;

verus! {

/// The adapter's lifecycle: usable, or broken for good with the kind
/// of the fatal error that broke it.
#[derive(Clone, Copy, Debug, PartialEq, Eq, Structural)]
pub enum Status {
    Open,
    Broken(ErrorKind),
}

/// The outcome of one readiness poll: either what the transport
/// reported to the adapter, or what the adapter answers its caller.
#[derive(Clone, Copy, Debug, PartialEq, Eq, Structural)]
pub enum Readiness {
    Ready,
    Pending,
    Failed(TransportError),
}

/// The adapter's abstract state: its lifecycle status, whether one
/// readiness grant is outstanding, and the ids of the requests handed
/// to the transport, in transmit order.
pub ghost struct ConnState {
    pub status: Status,
    pub ready: bool,
    pub sent: Seq<usize>,
}

impl ConnState {
    /// A broken adapter never holds a readiness grant.
    pub open spec fn sane(self) -> bool {
        self.status matches Status::Broken(_) ==> !self.ready
    }
}

/// One readiness poll: what the adapter's state becomes and what it
/// answers, given what the transport reported. A broken adapter
/// answers its fatal error and ignores the transport; an open one
/// passes the report through, turning any transport error into the
/// fatal error that breaks the adapter.
pub open spec fn ready_step(s: ConnState, transport: Readiness) -> (ConnState, Readiness) {
    match s.status {
        Status::Broken(kind) => (s, Readiness::Failed(TransportError { kind, fatal: true })),
        Status::Open => match transport {
            Readiness::Ready => (ConnState { ready: true, ..s }, Readiness::Ready),
            Readiness::Pending => (ConnState { ready: false, ..s }, Readiness::Pending),
            Readiness::Failed(e) => (
                ConnState { status: Status::Broken(e.kind), ready: false, ..s },
                Readiness::Failed(TransportError { kind: e.kind, fatal: true }),
            ),
        },
    }
}

/// One call: the readiness grant is consumed and the request id is
/// appended to the transmit order.
pub open spec fn call_step(s: ConnState, id: usize) -> ConnState {
    ConnState { ready: false, sent: s.sent.push(id), ..s }
}

/// A fatal error observed through a response future is reported back:
/// an open adapter breaks with that error's kind; an already broken
/// one keeps the kind that broke it first.
pub open spec fn fatal_step(s: ConnState, err: TransportError) -> ConnState {
    match s.status {
        Status::Broken(_) => ConnState { ready: false, ..s },
        Status::Open => ConnState { status: Status::Broken(err.kind), ready: false, ..s },
    }
}

/// One step of the adapter's life, as seen from its state.
pub enum Op {
    PollReady(Readiness),
    Call(usize),
    ReportFatal(TransportError),
}

pub open spec fn op_step(s: ConnState, op: Op) -> ConnState {
    match op {
        Op::PollReady(transport) => ready_step(s, transport).0,
        Op::Call(id) => call_step(s, id),
        Op::ReportFatal(err) => fatal_step(s, err),
    }
}

/// The state after a whole sequence of steps.
pub open spec fn run(s: ConnState, ops: Seq<Op>) -> ConnState
    decreases ops.len(),
{
    if ops.len() == 0 {
        s
    } else {
        op_step(run(s, ops.drop_last()), ops.last())
    }
}

pub proof fn lemma_run_preserves_sane(s: ConnState, ops: Seq<Op>)
    requires
        s.sane(),
    ensures
        run(s, ops).sane(),
    decreases ops.len(),
{
    if ops.len() > 0 {
        lemma_run_preserves_sane(s, ops.drop_last());
    }
}

pub proof fn lemma_run_preserves_broken(s: ConnState, ops: Seq<Op>, kind: ErrorKind)
    requires
        s.status == Status::Broken(kind),
    ensures
        run(s, ops).status == Status::Broken(kind),
    decreases ops.len(),
{
    if ops.len() > 0 {
        lemma_run_preserves_broken(s, ops.drop_last(), kind);
    }
}

/// Readiness gate: the right to issue a call exists only immediately
/// after a readiness poll in which the transport reported ready while
/// the adapter was open. Every other step — a call, a pending or
/// failed poll, a reported fatal error — leaves the adapter without
/// that right; and `Connection::call` both requires the grant and
/// consumes it. So every successful call is immediately preceded by a
/// readiness poll that answered ready on the same adapter.
pub proof fn lemma_readiness_gate(s: ConnState, ops: Seq<Op>)
    requires
        s.sane(),
        ops.len() > 0,
    ensures
        run(s, ops).ready ==> {
            &&& ops.last() == Op::PollReady(Readiness::Ready)
            &&& run(s, ops.drop_last()).status == Status::Open
            &&& ready_step(run(s, ops.drop_last()), Readiness::Ready).1 == Readiness::Ready
        },
{
    lemma_run_preserves_sane(s, ops.drop_last());
}

/// Fatal stickiness: once a readiness poll has surfaced an error, the
/// adapter is broken; every later readiness poll surfaces exactly the
/// same fatal error, whatever else happens in between and whatever the
/// transport would now report.
pub proof fn lemma_fatal_stickiness(
    s: ConnState,
    first: Readiness,
    e: TransportError,
    ops: Seq<Op>,
    later: Readiness,
)
    requires
        s.sane(),
        ready_step(s, first).1 == Readiness::Failed(e),
    ensures
        e.fatal,
        ready_step(run(ready_step(s, first).0, ops), later).1 == Readiness::Failed(e),
{
    lemma_run_preserves_broken(ready_step(s, first).0, ops, e.kind);
}

/// No reordering: whatever steps happen, the ids already handed to
/// the transport stay, in their order — a call only appends to the
/// transmit order, and nothing removes from it. So requests go out in
/// exactly the order of successful calls.
pub proof fn lemma_transmit_order_preserved(s: ConnState, ops: Seq<Op>)
    ensures
        run(s, ops).sent.len() >= s.sent.len(),
        run(s, ops).sent.take(s.sent.len() as int) == s.sent,
    decreases ops.len(),
{
    if ops.len() == 0 {
        assert(s.sent.take(s.sent.len() as int) =~= s.sent);
    } else {
        lemma_transmit_order_preserved(s, ops.drop_last());
        let mid = run(s, ops.drop_last());
        let end = op_step(mid, ops.last());
        assert(end.sent.take(s.sent.len() as int) =~= mid.sent.take(s.sent.len() as int));
    }
}

/// One end of an established HTTP client connection, seen as a
/// request/response service: the verified protocol core the adapter
/// is built on. It tracks the readiness handshake, the transmit order
/// of issued requests, and whether a fatal transport error has made
/// the connection unusable. The unverified rim owns the transport's
/// send handle, polls it, and feeds what it reported into these
/// methods.
#[derive(Debug)]
pub struct Connection {
    /// Usable, or broken with the kind of the first fatal error.
    pub status: Status,
    /// Whether one readiness grant is outstanding. Readiness is not
    /// cumulative: one grant allows exactly one call.
    pub ready: bool,
    /// The ids of the issued requests, in transmit order.
    pub sent: Vec<usize>,
}

impl View for Connection {
    type V = ConnState;

    open spec fn view(&self) -> ConnState {
        ConnState { status: self.status, ready: self.ready, sent: self.sent@ }
    }
}

impl Connection {
    /// The adapter's own invariant: its abstract state is sane.
    pub open spec fn wf(self) -> bool {
        self@.sane()
    }

    /// A fresh adapter over a freshly established send handle: open,
    /// with no readiness grant and nothing transmitted.
    pub fn new() -> (r: Connection)
        ensures
            r.wf(),
            r.status == Status::Open,
            !r.ready,
            r.sent@ == Seq::<usize>::empty(),
    {
        Connection { status: Status::Open, ready: false, sent: Vec::new() }
    }

    /// One readiness poll. The caller hands in what the transport
    /// reported; the answer and the new state are exactly
    /// `ready_step`: a broken adapter deterministically answers its
    /// fatal error, an open one passes the report through, and any
    /// transport error breaks the adapter for good.
    pub fn poll_ready(&mut self, transport: Readiness) -> (r: Readiness)
        requires
            old(self).wf(),
        ensures
            final(self).wf(),
            (final(self)@, r) == ready_step(old(self)@, transport),
    {
        match self.status {
            Status::Broken(kind) => Readiness::Failed(TransportError { kind, fatal: true }),
            Status::Open => match transport {
                Readiness::Ready => {
                    self.ready = true;
                    Readiness::Ready
                },
                Readiness::Pending => {
                    self.ready = false;
                    Readiness::Pending
                },
                Readiness::Failed(e) => {
                    self.status = Status::Broken(e.kind);
                    self.ready = false;
                    Readiness::Failed(TransportError { kind: e.kind, fatal: true })
                },
            },
        }
    }

    /// Issues one request. Requires the one outstanding readiness
    /// grant and consumes it; the request's id is appended to the
    /// transmit order, so requests go to the transport exactly in the
    /// order of successful calls. Never fails: every failure of the
    /// request itself is surfaced by the returned future.
    pub fn call(&mut self) -> (fut: ResponseFuture)
        requires
            old(self).wf(),
            old(self).ready,
        ensures
            final(self).wf(),
            final(self)@ == call_step(old(self)@, fut.id),
            final(self).sent@ == old(self).sent@.push(fut.id),
            final(self).status == old(self).status,
            !final(self).ready,
            fut.id as int == old(self).sent@.len(),
            !fut.resolved,
    {
        let id: usize = self.sent.len();
        self.sent.push(id);
        self.ready = false;
        ResponseFuture { id, resolved: false }
    }

    /// Reports a fatal error observed through a response future, so
    /// that every later readiness poll surfaces it: the state becomes
    /// exactly `fatal_step`.
    pub fn report_fatal(&mut self, err: TransportError)
        requires
            old(self).wf(),
            err.fatal,
        ensures
            final(self).wf(),
            final(self)@ == fatal_step(old(self)@, err),
    {
        match self.status {
            Status::Broken(_) => {
                self.ready = false;
            },
            Status::Open => {
                self.status = Status::Broken(err.kind);
                self.ready = false;
            },
        }
    }
}

} // verus!
