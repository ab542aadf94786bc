use websocat::http_server::{
    datagram_delivery, handle_request, handle_request_for_upgrade, plan_request, serve_request,
    switching_protocols, upgrade_delivery, Header, HttpServer, RequestError, RequestPlan,
    REQUEST_QUEUE_CAPACITY,
};
use websocat::types::{Bipipe, NodeError, NodeId, RunContext, Shape, Sink, Source};
use websocat::utils::{Handle, HandleExt, HandleExt2};

type Pipe = Bipipe<&'static str, u8, &'static str, u8, char>;

fn bytes(r: &'static str, w: &'static str, signal: Option<char>) -> Pipe {
    Bipipe { r: Source::ByteStream(r), w: Sink::ByteStream(w), closing_notification: signal }
}

#[test]
fn registry_resolves_what_was_registered() {
    let mut ctx: RunContext<&str> = RunContext::new();
    let a = ctx.register("tcp");
    let b = ctx.register("tls");
    assert_eq!(a, NodeId(0));
    assert_eq!(b, NodeId(1));
    assert_eq!(ctx.resolve(a), Ok(&"tcp"));
    assert_eq!(ctx.resolve(b), Ok(&"tls"));
    assert_eq!(ctx.resolve(NodeId(2)), Err(NodeError::UnresolvedNode(NodeId(2))));
}

#[test]
fn retired_node_is_stale() {
    let mut ctx: RunContext<&str> = RunContext::new();
    let a = ctx.register("tcp");
    let b = ctx.register("tls");
    assert_eq!(ctx.retire(a), Some("tcp"));
    assert_eq!(ctx.retire(a), None);
    assert_eq!(ctx.retire(NodeId(9)), None);
    assert_eq!(ctx.resolve(a), Err(NodeError::UnresolvedNode(a)));
    assert_eq!(ctx.resolve(b), Ok(&"tls"));
    let c = ctx.register("ws");
    assert_eq!(c, NodeId(2));
    assert_eq!(ctx.resolve(a), Err(NodeError::UnresolvedNode(a)));
}

#[test]
fn configuration_defaults() {
    let mut node = HttpServer::new(NodeId(3));
    assert_eq!(node.inner, NodeId(3));
    assert!(!node.upgrade);
    assert_eq!(node.validate(), Ok(()));
    assert_eq!(node, HttpServer { inner: NodeId(3), upgrade: false });
}

#[test]
fn inner_node_is_resolved_first() {
    let mut ctx: RunContext<&str> = RunContext::new();
    let inner = ctx.register("tcp");
    let run = HttpServer::new(inner).resolve_inner(&ctx, Some(7u32)).unwrap();
    assert_eq!(run.node, &"tcp");
    assert_eq!(run.multiconn, Some(7));
    let run = HttpServer::new(inner).resolve_inner(&ctx, None::<u32>).unwrap();
    assert_eq!(run.multiconn, None);
    let missing = HttpServer::new(NodeId(5));
    let err = missing.resolve_inner(&ctx, Some(7u32)).unwrap_err();
    assert_eq!(err, NodeError::UnresolvedNode(NodeId(5)));
    assert!(!err.message().is_empty());
}

#[test]
fn wrapping_pipe_carries_the_closing_signal() {
    let pipe: Pipe = Bipipe::wrapping(Source::Datagrams(1), Sink::Datagrams(2), None, Some('i'));
    assert_eq!(pipe.closing_notification, Some('i'));
    let pipe: Pipe =
        Bipipe::wrapping(Source::Datagrams(1), Sink::Datagrams(2), Some('o'), Some('i'));
    assert_eq!(pipe.closing_notification, Some('o'));
    let pipe: Pipe = Bipipe::wrapping(Source::ByteStream("r"), Sink::ByteStream("w"), None, None);
    assert_eq!(pipe.closing_notification, None);
    assert!(matches!(pipe.r, Source::ByteStream("r")));
    assert!(matches!(pipe.w, Sink::ByteStream("w")));
}

#[test]
fn bytestream_inner_is_served() {
    let node = HttpServer { inner: NodeId(0), upgrade: false };
    let plan = node.accept_inner(bytes("in", "out", Some('c'))).unwrap();
    assert_eq!(plan.reader, "in");
    assert_eq!(plan.writer, "out");
    assert!(!plan.with_upgrades);
    assert_eq!(plan.closing_notification, Some('c'));
    let node = HttpServer { inner: NodeId(0), upgrade: true };
    let plan = node.accept_inner(bytes("in", "out", None)).unwrap();
    assert!(plan.with_upgrades);
    assert_eq!(plan.closing_notification, None);
}

#[test]
fn datagram_inner_is_a_shape_mismatch() {
    let node = HttpServer::new(NodeId(0));
    let both: Pipe =
        Bipipe { r: Source::Datagrams(1), w: Sink::Datagrams(2), closing_notification: None };
    let err = node.accept_inner(both).unwrap_err();
    assert_eq!(err, NodeError::RequiresByteStream);
    assert_eq!(err.message(), "HTTP server requires a bytestream-based inner node");
    let read_only: Pipe =
        Bipipe { r: Source::Datagrams(1), w: Sink::ByteStream("w"), closing_notification: None };
    assert_eq!(node.accept_inner(read_only).unwrap_err(), NodeError::RequiresByteStream);
    let write_only: Pipe =
        Bipipe { r: Source::ByteStream("r"), w: Sink::Datagrams(2), closing_notification: None };
    assert_eq!(node.accept_inner(write_only).unwrap_err(), NodeError::RequiresByteStream);
}

#[test]
fn request_mode_bridges_the_first_request_only() {
    let handoff: Handle<&str> = Some("sender").wrap();
    let plan = handle_request(handoff.lut()).unwrap();
    assert_eq!(plan.tx, "sender");
    assert_eq!(plan.queue_capacity, 1);
    assert_eq!(REQUEST_QUEUE_CAPACITY, 1);
    let (r, w): (Source<&str, u8>, Sink<&str, u8>) = datagram_delivery(10u8, 20u8);
    assert_eq!(r.shape(), Shape::Datagrams);
    assert_eq!(w.shape(), Shape::Datagrams);
    let pipe: Pipe = HttpServer::finish(Some('c'), Some((r, w))).unwrap();
    assert!(matches!(pipe.r, Source::Datagrams(10)));
    assert!(matches!(pipe.w, Sink::Datagrams(20)));
    assert_eq!(pipe.closing_notification, Some('c'));

    let err = handle_request(handoff.lut()).unwrap_err();
    assert_eq!(err, RequestError::ConnectionReused);
    assert_eq!(
        err.message(),
        "Trying to reuse HTTP connection for second request to Websocat, which is not supported in this mode"
    );
    assert!(matches!(pipe.r, Source::Datagrams(10)));
    assert!(matches!(pipe.w, Sink::Datagrams(20)));
    assert!(handle_request(handoff.lut()).is_err());
}

#[test]
fn upgrade_mode_answers_101() {
    let handoff: Handle<&str> = Some("sender").wrap();
    let plan = handle_request_for_upgrade(handoff.lut()).unwrap();
    assert_eq!(plan.tx, "sender");
    assert_eq!(plan.response.status, 101);
    assert_eq!(
        plan.response.headers,
        vec![Header { name: "connection".to_string(), value: "upgrade".to_string() }]
    );
    assert_eq!(plan.response, switching_protocols());
    assert_eq!(
        handle_request_for_upgrade(handoff.lut()).unwrap_err(),
        RequestError::ConnectionReused
    );
}

#[test]
fn response_uses_the_constants_of_http() {
    let head = switching_protocols();
    assert_eq!(head.status, http::StatusCode::SWITCHING_PROTOCOLS.as_u16());
    assert_eq!(head.headers[0].name, http::header::CONNECTION.as_str());
    let value = http::HeaderValue::from_str(&head.headers[0].value).unwrap();
    assert_eq!(value, http::HeaderValue::from_static("upgrade"));
}

#[test]
fn successful_upgrade_yields_byte_streams() {
    let handed: Result<(Source<&str, u8>, Sink<&str, u8>), String> =
        upgrade_delivery(Ok(("up-r", "up-w")));
    let (r, w) = handed.unwrap();
    assert_eq!(r.shape(), Shape::ByteStream);
    assert_eq!(w.shape(), Shape::ByteStream);
    let pipe: Pipe = HttpServer::finish(None, Some((r, w))).unwrap();
    assert!(matches!(pipe.r, Source::ByteStream("up-r")));
    assert!(matches!(pipe.w, Sink::ByteStream("up-w")));
    assert_eq!(pipe.closing_notification, None);
}

#[test]
fn failed_upgrade_fails_the_run() {
    let handed: Result<(Source<&str, u8>, Sink<&str, u8>), String> =
        upgrade_delivery(Err("transport error".to_string()));
    assert_eq!(handed.as_ref().unwrap_err(), "transport error");
    let run: Result<Pipe, NodeError> = HttpServer::finish(Some('c'), handed.ok());
    let err = run.unwrap_err();
    assert_eq!(err, NodeError::ClosedWithoutPipe);
    assert_eq!(err.message(), "connection closed without producing a pipe");
}

#[test]
fn shapes_of_both_sides() {
    let r: Source<u8, u8> = Source::ByteStream(1);
    let w: Sink<u8, u8> = Sink::Datagrams(2);
    assert_eq!(r.shape(), Shape::ByteStream);
    assert_eq!(w.shape(), Shape::Datagrams);
}

#[test]
fn requests_are_planned_by_mode() {
    let handoff: Handle<u8> = Some(4).wrap();
    match serve_request(false, &handoff).unwrap() {
        RequestPlan::Bridge(plan) => {
            assert_eq!(plan.tx, 4);
            assert_eq!(plan.queue_capacity, 1);
        }
        other => panic!("unexpected: {:?}", other),
    }
    assert_eq!(serve_request(false, &handoff).unwrap_err(), RequestError::ConnectionReused);
    assert_eq!(serve_request(true, &handoff).unwrap_err(), RequestError::ConnectionReused);

    let handoff: Handle<u8> = Some(5).wrap();
    match serve_request(true, &handoff).unwrap() {
        RequestPlan::Upgrade(plan) => {
            assert_eq!(plan.tx, 5);
            assert_eq!(plan.response, switching_protocols());
        }
        other => panic!("unexpected: {:?}", other),
    }
    assert_eq!(serve_request(true, &handoff).unwrap_err(), RequestError::ConnectionReused);

    let empty: Handle<u8> = None.wrap();
    assert_eq!(serve_request(false, &empty).unwrap_err(), RequestError::ConnectionReused);
}

#[test]
fn plan_follows_mode_and_take() {
    match plan_request(false, Some(7u8)).unwrap() {
        RequestPlan::Bridge(plan) => {
            assert_eq!(plan.tx, 7);
            assert_eq!(plan.queue_capacity, REQUEST_QUEUE_CAPACITY);
        }
        other => panic!("unexpected: {:?}", other),
    }
    match plan_request(true, Some(8u8)).unwrap() {
        RequestPlan::Upgrade(plan) => {
            assert_eq!(plan.tx, 8);
            assert_eq!(plan.response, switching_protocols());
        }
        other => panic!("unexpected: {:?}", other),
    }
    assert_eq!(plan_request(false, None::<u8>).unwrap_err(), RequestError::ConnectionReused);
    assert_eq!(plan_request(true, None::<u8>).unwrap_err(), RequestError::ConnectionReused);
}
