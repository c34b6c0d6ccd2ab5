use conn_adapter::ErrorKind;
use conn_adapter::TransportError;
use conn_adapter::body::LiftBody;
use conn_adapter::body::TransportBody;
use conn_adapter::connection::Connection;
use conn_adapter::connection::Readiness;
use conn_adapter::connection::Status;
use conn_adapter::message::Header;
use conn_adapter::message::ResponseHead;
use conn_adapter::message::Version;
use conn_adapter::response::lift_response;
use conn_adapter::response::ResponseEvent;
use conn_adapter::response::ResponsePoll;

fn header(name: &[u8], value: &[u8]) -> Header {
    Header { name: name.to_vec(), value: value.to_vec() }
}

#[test]
fn s1_simple_get() {
    let mut conn = Connection::new();
    assert_eq!(conn.poll_ready(Readiness::Ready), Readiness::Ready);
    let mut fut = conn.call();
    let head = ResponseHead {
        status: 200,
        version: Version::Http11,
        headers: vec![header(b"content-length", b"5")],
    };
    let body = TransportBody::new(vec![b"hello".to_vec()], None, Some(5));
    match fut.poll(ResponseEvent::Headers(head, body)) {
        ResponsePoll::Ready(mut resp) => {
            assert_eq!(resp.head.status, 200);
            assert_eq!(resp.head.version, Version::Http11);
            assert_eq!(resp.head.headers, vec![header(b"content-length", b"5")]);
            assert_eq!(resp.body.content_length(), Some(5));
            assert_eq!(resp.body.poll_data(), Some(b"hello".to_vec()));
            assert_eq!(resp.body.poll_data(), None);
            assert_eq!(resp.body.poll_trailers(), None);
            assert!(resp.body.is_end_stream());
        }
        _ => panic!("expected a response"),
    }
    assert!(fut.resolved);
}

#[test]
fn s2_post_with_streamed_body() {
    // The outbound body emits three chunks; the transport drains them
    // in order, so the bytes go on the wire as `abc` then `def`.
    let mut outbound = TransportBody::new(
        vec![b"abc".to_vec(), b"def".to_vec(), b"".to_vec()],
        None,
        None,
    );
    let mut wire: Vec<u8> = Vec::new();
    while let Some(chunk) = outbound.poll_data() {
        wire.extend_from_slice(&chunk);
    }
    assert_eq!(wire, b"abcdef".to_vec());

    // The peer echoes the bytes back as one 200 response.
    let mut conn = Connection::new();
    assert_eq!(conn.poll_ready(Readiness::Ready), Readiness::Ready);
    let mut fut = conn.call();
    let head = ResponseHead { status: 200, version: Version::Http11, headers: vec![] };
    let body = TransportBody::new(vec![b"abcdef".to_vec()], None, Some(6));
    match fut.poll(ResponseEvent::Headers(head, body)) {
        ResponsePoll::Ready(mut resp) => {
            assert_eq!(resp.head.status, 200);
            assert_eq!(resp.body.poll_data(), Some(b"abcdef".to_vec()));
            assert_eq!(resp.body.poll_data(), None);
        }
        _ => panic!("expected a response"),
    }
}

#[test]
fn s3_readiness_backpressure() {
    let mut conn = Connection::new();
    assert_eq!(conn.poll_ready(Readiness::Ready), Readiness::Ready);
    let mut fut = conn.call();
    // The transport's in-flight limit is saturated: it reports pending.
    assert_eq!(conn.poll_ready(Readiness::Pending), Readiness::Pending);
    assert!(!conn.ready);
    // The in-flight response resolves ...
    let head = ResponseHead { status: 204, version: Version::Http11, headers: vec![] };
    let body = TransportBody::new(vec![], None, Some(0));
    match fut.poll(ResponseEvent::Headers(head, body)) {
        ResponsePoll::Ready(_) => {}
        _ => panic!("expected a response"),
    }
    // ... and the next poll finds the transport ready again.
    assert_eq!(conn.poll_ready(Readiness::Ready), Readiness::Ready);
    assert!(conn.ready);
}

#[test]
fn s4_peer_initiated_close() {
    let mut conn = Connection::new();
    assert_eq!(conn.poll_ready(Readiness::Ready), Readiness::Ready);
    let mut fut = conn.call();
    // The peer closes the connection mid-response.
    let err = TransportError::fatal(ErrorKind::Closed);
    match fut.poll(ResponseEvent::Failed(err)) {
        ResponsePoll::Failed(e) => {
            assert_eq!(e.kind, ErrorKind::Closed);
            assert!(e.fatal);
        }
        _ => panic!("expected a failure"),
    }
    assert!(fut.resolved);
    conn.report_fatal(err);
    assert_eq!(conn.status, Status::Broken(ErrorKind::Closed));
    // The next readiness poll surfaces the same fatal kind; the
    // adapter is unusable thereafter.
    match conn.poll_ready(Readiness::Ready) {
        Readiness::Failed(e) => {
            assert_eq!(e.kind, ErrorKind::Closed);
            assert!(e.fatal);
        }
        _ => panic!("expected the sticky fatal error"),
    }
    assert!(!conn.ready);
}

#[test]
fn s5_drop_cancels() {
    let mut conn = Connection::new();
    assert_eq!(conn.poll_ready(Readiness::Ready), Readiness::Ready);
    let fut = conn.call();
    // Drop the response future before headers arrive: the request is
    // best-effort cancelled, and the adapter remains usable.
    drop(fut);
    assert_eq!(conn.poll_ready(Readiness::Ready), Readiness::Ready);
    let fut2 = conn.call();
    assert_eq!(fut2.id, 1);
}

#[test]
fn s6_request_ordering() {
    let mut conn = Connection::new();
    assert_eq!(conn.poll_ready(Readiness::Ready), Readiness::Ready);
    let mut a = conn.call();
    assert_eq!(conn.poll_ready(Readiness::Ready), Readiness::Ready);
    let mut b = conn.call();
    assert_eq!(conn.poll_ready(Readiness::Ready), Readiness::Ready);
    let mut c = conn.call();
    // Requests go to the transport in the order of successful calls.
    assert_eq!(conn.sent, vec![0usize, 1, 2]);
    assert_eq!(a.id, 0);
    assert_eq!(b.id, 1);
    assert_eq!(c.id, 2);
    // On a serial transport the responses then resolve in that order.
    for fut in [&mut a, &mut b, &mut c] {
        let head = ResponseHead { status: 200, version: Version::Http11, headers: vec![] };
        let body = TransportBody::new(vec![], None, Some(0));
        match fut.poll(ResponseEvent::Headers(head, body)) {
            ResponsePoll::Ready(_) => {}
            _ => panic!("expected a response"),
        }
    }
}

#[test]
fn readiness_gate_one_grant_per_call() {
    let mut conn = Connection::new();
    // A fresh adapter holds no grant.
    assert!(!conn.ready);
    assert_eq!(conn.poll_ready(Readiness::Ready), Readiness::Ready);
    // Readiness is not cumulative: polling twice still grants one call.
    assert_eq!(conn.poll_ready(Readiness::Ready), Readiness::Ready);
    let _fut = conn.call();
    assert!(!conn.ready);
    // A pending report withdraws an unconsumed grant.
    assert_eq!(conn.poll_ready(Readiness::Ready), Readiness::Ready);
    assert_eq!(conn.poll_ready(Readiness::Pending), Readiness::Pending);
    assert!(!conn.ready);
}

#[test]
fn one_response_per_call() {
    let mut conn = Connection::new();
    assert_eq!(conn.poll_ready(Readiness::Ready), Readiness::Ready);
    let mut fut = conn.call();
    // Pending polls do not resolve the future.
    match fut.poll(ResponseEvent::Pending) {
        ResponsePoll::Pending => {}
        _ => panic!("expected pending"),
    }
    assert!(!fut.resolved);
    match fut.poll(ResponseEvent::Pending) {
        ResponsePoll::Pending => {}
        _ => panic!("expected pending"),
    }
    assert!(!fut.resolved);
    // The first real report resolves it, once and for all.
    let err = TransportError { kind: ErrorKind::Canceled, fatal: false };
    match fut.poll(ResponseEvent::Failed(err)) {
        ResponsePoll::Failed(e) => assert_eq!(e, err),
        _ => panic!("expected a failure"),
    }
    assert!(fut.resolved);
}

#[test]
fn header_preservation_exact() {
    let head = ResponseHead {
        status: 301,
        version: Version::H2,
        headers: vec![header(b"location", b"/moved"), header(b"x-trace", b"7f3a")],
    };
    let expected = head.clone();
    let body = TransportBody::new(vec![], None, None);
    let resp = lift_response(head, body);
    // Status, version and headers come through verbatim.
    assert_eq!(resp.head, expected);
}

#[test]
fn body_equivalence_with_trailers() {
    let trailers = vec![header(b"x-checksum", b"0a1b2c")];
    let inner = TransportBody::new(
        vec![b"c1".to_vec(), b"c2".to_vec(), b"c3".to_vec()],
        Some(trailers.clone()),
        None,
    );
    let mut lifted = LiftBody::new(inner);
    // The lifted body yields exactly the peer's chunks, in order ...
    assert_eq!(lifted.poll_data(), Some(b"c1".to_vec()));
    assert_eq!(lifted.poll_data(), Some(b"c2".to_vec()));
    assert_eq!(lifted.poll_data(), Some(b"c3".to_vec()));
    assert_eq!(lifted.poll_data(), None);
    // ... and then the same trailers.
    assert!(!lifted.is_end_stream());
    assert_eq!(lifted.poll_trailers(), Some(trailers));
    assert!(lifted.is_end_stream());
}

#[test]
fn empty_body_ends_immediately() {
    let mut body = TransportBody::new(vec![], None, Some(0));
    assert!(body.is_end_stream());
    assert_eq!(body.poll_data(), None);
    assert_eq!(body.poll_trailers(), None);
    assert_eq!(body.content_length(), Some(0));
}

#[test]
fn fatal_stickiness_whatever_follows() {
    let mut conn = Connection::new();
    // Every readiness error is fatal to the adapter, even one the
    // transport scoped to a request.
    let first = TransportError { kind: ErrorKind::Protocol, fatal: false };
    match conn.poll_ready(Readiness::Failed(first)) {
        Readiness::Failed(e) => {
            assert_eq!(e.kind, ErrorKind::Protocol);
            assert!(e.fatal);
        }
        _ => panic!("expected a failure"),
    }
    // Whatever the transport would now report, the answer keeps the
    // kind that broke the adapter first.
    let reports = [
        Readiness::Ready,
        Readiness::Pending,
        Readiness::Failed(TransportError::fatal(ErrorKind::Closed)),
    ];
    for report in reports {
        match conn.poll_ready(report) {
            Readiness::Failed(e) => {
                assert_eq!(e.kind, ErrorKind::Protocol);
                assert!(e.fatal);
            }
            _ => panic!("expected the sticky fatal error"),
        }
    }
}

#[test]
fn each_error_kind_surfaces_unchanged() {
    let kinds = [
        ErrorKind::Closed,
        ErrorKind::Protocol,
        ErrorKind::BodyWrite,
        ErrorKind::Canceled,
    ];
    for kind in kinds {
        let mut conn = Connection::new();
        conn.report_fatal(TransportError::fatal(kind));
        assert_eq!(conn.status, Status::Broken(kind));
        match conn.poll_ready(Readiness::Ready) {
            Readiness::Failed(e) => {
                assert_eq!(e.kind, kind);
                assert!(e.fatal);
            }
            _ => panic!("expected a failure"),
        }
    }
}

#[test]
fn per_request_failure_leaves_connection_usable() {
    let mut conn = Connection::new();
    assert_eq!(conn.poll_ready(Readiness::Ready), Readiness::Ready);
    let mut fut = conn.call();
    // The request fails, but the transport says the connection lives.
    let err = TransportError { kind: ErrorKind::BodyWrite, fatal: false };
    match fut.poll(ResponseEvent::Failed(err)) {
        ResponsePoll::Failed(e) => assert_eq!(e, err),
        _ => panic!("expected a failure"),
    }
    // Nothing fatal was reported: the adapter stays open and usable.
    assert_eq!(conn.status, Status::Open);
    assert_eq!(conn.poll_ready(Readiness::Ready), Readiness::Ready);
}

#[test]
fn report_fatal_keeps_first_kind() {
    let mut conn = Connection::new();
    conn.report_fatal(TransportError::fatal(ErrorKind::Closed));
    conn.report_fatal(TransportError::fatal(ErrorKind::Protocol));
    // The kind that broke the adapter first is the one that sticks.
    assert_eq!(conn.status, Status::Broken(ErrorKind::Closed));
}
