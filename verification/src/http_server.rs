//! The HTTP server node: it ends an HTTP/1.1 connection that runs over an
//! inner byte-stream pipe and offers the application data of that connection
//! as a new pipe.
//!
//! In request mode the body of the one request and the body of its response
//! become a pipe of datagrams. In upgrade mode the connection itself, once
//! upgraded, becomes a pipe of bytes. Either way a connection hands over one
//! pipe at most: the sender of the handoff sits in a take-once handle, and a
//! request that finds the handle empty is refused.
//!
//! Driving the connection is the caller's work. The rules are here: what the
//! inner pipe must look like, what each request is answered with, what is
//! handed over, and what the node returns in the end.

use crate::types::{Bipipe, NodeError, NodeId, RunContext, Shape, Sink, Source};
use crate::utils::{take_once, take_run, wrapped_value, Handle, HandleExt2};
use vstd::prelude::*;
use vstd::string::StringExecFns;

verus! {

/// The configuration of an HTTP server node.
#[derive(Clone, Copy, Debug, PartialEq, Eq, Hash, Structural)]
pub struct HttpServer {
    /// The node whose byte-stream pipe carries the HTTP connection.
    pub inner: NodeId,
    /// Expect and handle upgrades.
    pub upgrade: bool,
}

/// How many chunks of a request body may wait between the connection and the
/// reader of the pipe.
pub const REQUEST_QUEUE_CAPACITY: usize = 1;

/// Why a request was refused.
#[derive(Clone, Copy, Debug, PartialEq, Eq, Hash, Structural)]
pub enum RequestError {
    /// The connection has handed over its pipe already.
    ConnectionReused,
}

/// The human-readable cause of a refused request.
pub open spec fn request_error_text(e: RequestError) -> Seq<char> {
    "Trying to reuse HTTP connection for second request to Websocat, which is not supported in this mode"@
}

impl RequestError {
    /// The human-readable cause.
    pub fn message(&self) -> (m: &'static str)
        ensures
            m@ == request_error_text(*self),
    {
        "Trying to reuse HTTP connection for second request to Websocat, which is not supported in this mode"
    }
}

/// One header of a response.
#[derive(Clone, Debug, PartialEq, Eq, Hash)]
pub struct Header {
    pub name: String,
    pub value: String,
}

/// Status and headers of a response.
#[derive(Clone, Debug, PartialEq, Eq, Hash)]
pub struct ResponseHead {
    pub status: u16,
    pub headers: Vec<Header>,
}

/// Mathematical value of a `ResponseHead`: the status, and the headers as
/// pairs of name and value.
pub struct ResponseModel {
    pub status: u16,
    pub headers: Seq<(Seq<char>, Seq<char>)>,
}

impl View for ResponseHead {
    type V = ResponseModel;

    open spec fn view(&self) -> ResponseModel {
        ResponseModel {
            status: self.status,
            headers: self.headers@.map_values(|h: Header| (h.name@, h.value@)),
        }
    }
}

/// The answer to a request that asks for an upgrade: `101 Switching
/// Protocols` with `connection: upgrade`.
pub open spec fn switching_protocols_model() -> ResponseModel {
    ResponseModel { status: 101, headers: seq![("connection"@, "upgrade"@)] }
}

/// The number of `http::StatusCode::SWITCHING_PROTOCOLS`.
///
/// Trusted: that the constant of `http` is 101.
#[verifier::external_body]
fn switching_protocols_code() -> (code: u16)
    ensures
        code == 101,
{
    http::StatusCode::SWITCHING_PROTOCOLS.as_u16()
}

/// The text of `http::header::CONNECTION`.
///
/// Trusted: that `http` spells the header name in lower case, `connection`.
#[verifier::external_body]
fn connection_header_name() -> (name: String)
    ensures
        name@ == "connection"@,
{
    http::header::CONNECTION.as_str().to_owned()
}

/// The answer to a request that asks for an upgrade.
pub fn switching_protocols() -> (head: ResponseHead)
    ensures
        head@ == switching_protocols_model(),
{
    let mut headers: Vec<Header> = Vec::new();
    headers.push(Header { name: connection_header_name(), value: String::from_str("upgrade") });
    let head = ResponseHead { status: switching_protocols_code(), headers };
    assert(head@.headers =~= switching_protocols_model().headers);
    head
}

/// What a request finds in the slot of the handoff: the sender, if this is
/// the first request of the connection, or the refusal.
pub open spec fn claim<Tx>(slot: Option<Tx>) -> Result<Tx, RequestError> {
    match slot {
        Some(tx) => Ok(tx),
        None => Err(RequestError::ConnectionReused),
    }
}

/// What to do with a request in request mode.
#[derive(Debug)]
pub struct BridgePlan<Tx> {
    /// The sender on which the pipe of datagrams is handed over.
    pub tx: Tx,
    /// The capacity of the queue that carries the request body.
    pub queue_capacity: usize,
}

/// What to do with a request in upgrade mode.
#[derive(Debug)]
pub struct UpgradePlan<Tx> {
    /// The sender on which the pipe of bytes is handed over once the
    /// connection is upgraded.
    pub tx: Tx,
    /// The response to return at once, before the upgrade completes.
    pub response: ResponseHead,
}

/// A request in request mode, given what was taken from the handoff slot.
/// The first request of a connection is bridged; any other is refused.
pub fn handle_request<Tx>(tx: Option<Tx>) -> (r: Result<BridgePlan<Tx>, RequestError>)
    ensures
        match r {
            Ok(plan) => claim(tx) == Ok::<Tx, RequestError>(plan.tx) && plan.queue_capacity
                == REQUEST_QUEUE_CAPACITY,
            Err(e) => claim(tx) == Err::<Tx, RequestError>(e),
        },
{
    match tx {
        Some(tx) => Ok(BridgePlan { tx, queue_capacity: REQUEST_QUEUE_CAPACITY }),
        None => Err(RequestError::ConnectionReused),
    }
}

/// A request in upgrade mode, given what was taken from the handoff slot.
/// The first request of a connection is answered with `101 Switching
/// Protocols`; any other is refused.
pub fn handle_request_for_upgrade<Tx>(tx: Option<Tx>) -> (r: Result<UpgradePlan<Tx>, RequestError>)
    ensures
        match r {
            Ok(plan) => claim(tx) == Ok::<Tx, RequestError>(plan.tx) && plan.response@
                == switching_protocols_model(),
            Err(e) => claim(tx) == Err::<Tx, RequestError>(e),
        },
{
    match tx {
        Some(tx) => Ok(UpgradePlan { tx, response: switching_protocols() }),
        None => Err(RequestError::ConnectionReused),
    }
}

/// What to do with a request, by the mode of the node.
#[derive(Debug)]
pub enum RequestPlan<Tx> {
    /// Request mode: bridge the bodies of the request and of its response.
    Bridge(BridgePlan<Tx>),
    /// Upgrade mode: answer at once and wait for the upgrade.
    Upgrade(UpgradePlan<Tx>),
}

impl<Tx> RequestPlan<Tx> {
    /// The sender that the plan holds.
    pub open spec fn sender(self) -> Tx {
        match self {
            RequestPlan::Bridge(plan) => plan.tx,
            RequestPlan::Upgrade(plan) => plan.tx,
        }
    }
}

/// The plan for a request, given the mode of the node and what was taken
/// from the handoff slot. A request that got the sender is planned by the
/// mode: bridged in request mode, answered with `101 Switching Protocols` in
/// upgrade mode. A request that got nothing is refused, whatever the mode.
pub fn plan_request<Tx>(with_upgrades: bool, taken: Option<Tx>) -> (r: Result<
    RequestPlan<Tx>,
    RequestError,
>)
    ensures
        match r {
            Ok(plan) => taken == Some(plan.sender()) && (match plan {
                RequestPlan::Bridge(bridge) => !with_upgrades && bridge.queue_capacity
                    == REQUEST_QUEUE_CAPACITY,
                RequestPlan::Upgrade(upgrade) => with_upgrades && upgrade.response@
                    == switching_protocols_model(),
            }),
            Err(e) => taken is None && e == RequestError::ConnectionReused,
        },
{
    if with_upgrades {
        match handle_request_for_upgrade(taken) {
            Ok(plan) => Ok(RequestPlan::Upgrade(plan)),
            Err(e) => Err(e),
        }
    } else {
        match handle_request(taken) {
            Ok(plan) => Ok(RequestPlan::Bridge(plan)),
            Err(e) => Err(e),
        }
    }
}

/// A request on a connection whose handoff sits in `handoff`: takes the
/// sender out of the handle and plans the request by the mode of the node. A
/// request that finds the handle empty is refused, whatever the mode.
///
/// Whether the sender is still there is decided by the requests that came
/// before on the connection. So the contract says what holds of every
/// outcome; `plan_request` says what is returned for each outcome of the
/// take.
pub fn serve_request<Tx>(with_upgrades: bool, handoff: &Handle<Tx>) -> (r: Result<
    RequestPlan<Tx>,
    RequestError,
>)
    ensures
        match r {
            Ok(plan) => wrapped_value(*handoff) == Some(plan.sender()) && (match plan {
                RequestPlan::Bridge(bridge) => !with_upgrades && bridge.queue_capacity
                    == REQUEST_QUEUE_CAPACITY,
                RequestPlan::Upgrade(upgrade) => with_upgrades && upgrade.response@
                    == switching_protocols_model(),
            }),
            Err(e) => e == RequestError::ConnectionReused,
        },
{
    plan_request(with_upgrades, handoff.lut())
}

/// The two sides of the pipe that request mode hands over.
pub open spec fn datagram_sides<RB, RD, WB, WD>(source: RD, sink: WD) -> (
    Source<RB, RD>,
    Sink<WB, WD>,
) {
    (Source::Datagrams(source), Sink::Datagrams(sink))
}

/// The two sides of the pipe that request mode hands over: the request body
/// to read from, the response body to write to.
pub fn datagram_delivery<RB, RD, WB, WD>(source: RD, sink: WD) -> (sides: (
    Source<RB, RD>,
    Sink<WB, WD>,
))
    ensures
        sides == datagram_sides::<RB, RD, WB, WD>(source, sink),
{
    (Source::Datagrams(source), Sink::Datagrams(sink))
}

/// What upgrade mode hands over for an outcome of the upgrade: the two halves
/// of the upgraded connection, or nothing, with the error to report.
pub open spec fn upgrade_sides<RB, RD, WB, WD, E>(outcome: Result<(RB, WB), E>) -> Result<
    (Source<RB, RD>, Sink<WB, WD>),
    E,
> {
    match outcome {
        Ok((r, w)) => Ok((Source::ByteStream(r), Sink::ByteStream(w))),
        Err(e) => Err(e),
    }
}

/// What upgrade mode hands over once the upgrade has succeeded or failed.
/// After a failure the sender is to be dropped, which ends the node's wait.
pub fn upgrade_delivery<RB, RD, WB, WD, E>(outcome: Result<(RB, WB), E>) -> (r: Result<
    (Source<RB, RD>, Sink<WB, WD>),
    E,
>)
    ensures
        r == upgrade_sides::<RB, RD, WB, WD, E>(outcome),
{
    match outcome {
        Ok((r, w)) => Ok((Source::ByteStream(r), Sink::ByteStream(w))),
        Err(e) => Err(e),
    }
}

/// How to run the inner node.
#[derive(Debug)]
pub struct InnerRun<'a, N, M> {
    /// The node to run.
    pub node: &'a N,
    /// The multi-connection context to run it with.
    pub multiconn: Option<M>,
}

/// How to serve the HTTP connection over the inner pipe.
#[derive(Debug)]
pub struct ServePlan<RB, WB, C> {
    /// The reading half of the inner byte stream.
    pub reader: RB,
    /// The writing half of the inner byte stream.
    pub writer: WB,
    /// Whether the connection is driven with support for upgrades.
    pub with_upgrades: bool,
    /// The closing signal of the inner pipe, to be carried to the pipe that
    /// the node returns.
    pub closing_notification: Option<C>,
}

/// What the node makes of the inner pipe: a plan to serve the connection
/// over it when both sides are byte streams, else the refusal.
pub open spec fn serve_plan_of<RB, RD, WB, WD, C>(
    upgrade: bool,
    inner: Bipipe<RB, RD, WB, WD, C>,
) -> Result<ServePlan<RB, WB, C>, NodeError> {
    match (inner.r, inner.w) {
        (Source::ByteStream(reader), Sink::ByteStream(writer)) => Ok(
            ServePlan {
                reader,
                writer,
                with_upgrades: upgrade,
                closing_notification: inner.closing_notification,
            },
        ),
        _ => Err(NodeError::RequiresByteStream),
    }
}

/// What the node returns once the handoff has ended: the pipe that was
/// delivered, with the closing signal of the inner pipe, or the failure when
/// the sender was dropped with nothing delivered.
pub open spec fn finish_of<RB, RD, WB, WD, C>(
    closing_notification: Option<C>,
    delivered: Option<(Source<RB, RD>, Sink<WB, WD>)>,
) -> Result<Bipipe<RB, RD, WB, WD, C>, NodeError> {
    match delivered {
        Some((r, w)) => Ok(Bipipe { r, w, closing_notification }),
        None => Err(NodeError::ClosedWithoutPipe),
    }
}

impl HttpServer {
    /// A node over `inner` that does not handle upgrades.
    pub fn new(inner: NodeId) -> (node: HttpServer)
        ensures
            node == (HttpServer { inner, upgrade: false }),
    {
        HttpServer { inner, upgrade: false }
    }

    /// Checks the configuration. Every configuration is valid.
    pub fn validate(&mut self) -> (r: Result<(), NodeError>)
        ensures
            r is Ok,
            *final(self) == *old(self),
    {
        Ok(())
    }

    /// First step of a run: resolves the inner node and says how to run it,
    /// which is with the multi-connection context that this run was given,
    /// unchanged. It fails exactly when the reference to the inner node does
    /// not resolve.
    pub fn resolve_inner<'a, N, M>(&self, ctx: &'a RunContext<N>, multiconn: Option<M>) -> (r:
        Result<InnerRun<'a, N, M>, NodeError>)
        ensures
            match r {
                Ok(run) => ctx.node_at(self.inner) == Some(*run.node) && run.multiconn
                    == multiconn,
                Err(e) => ctx.node_at(self.inner) is None && e == NodeError::UnresolvedNode(
                    self.inner,
                ),
            },
    {
        match ctx.resolve(self.inner) {
            Ok(node) => Ok(InnerRun { node, multiconn }),
            Err(e) => Err(e),
        }
    }

    /// Second step of a run: inspects the pipe of the inner node. Unless
    /// both of its sides are byte streams the run fails here, before any
    /// connection is served.
    pub fn accept_inner<RB, RD, WB, WD, C>(&self, inner: Bipipe<RB, RD, WB, WD, C>) -> (r: Result<
        ServePlan<RB, WB, C>,
        NodeError,
    >)
        ensures
            r == serve_plan_of(self.upgrade, inner),
    {
        let Bipipe { r, w, closing_notification } = inner;
        match (r, w) {
            (Source::ByteStream(reader), Sink::ByteStream(writer)) => Ok(
                ServePlan { reader, writer, with_upgrades: self.upgrade, closing_notification },
            ),
            _ => Err(NodeError::RequiresByteStream),
        }
    }

    /// Last step of a run: what the node returns once the wait for the
    /// handoff has ended.
    pub fn finish<RB, RD, WB, WD, C>(
        closing_notification: Option<C>,
        delivered: Option<(Source<RB, RD>, Sink<WB, WD>)>,
    ) -> (r: Result<Bipipe<RB, RD, WB, WD, C>, NodeError>)
        ensures
            r == finish_of(closing_notification, delivered),
    {
        match delivered {
            Some((r, w)) => Ok(Bipipe::wrapping(r, w, None, closing_notification)),
            None => Err(NodeError::ClosedWithoutPipe),
        }
    }
}

/// What was delivered on the handoff, given what upgrade mode had to hand
/// over: after a failure the sender is dropped and nothing arrives.
pub open spec fn arrived<P, E>(handed: Result<P, E>) -> Option<P> {
    match handed {
        Ok(p) => Some(p),
        Err(_) => None,
    }
}

/// The requests of one connection, in order, each with what it finds in the
/// handoff slot that held `tx` at first.
pub open spec fn claims<Tx>(tx: Tx, n: nat) -> Seq<Result<Tx, RequestError>> {
    take_run(Some(tx), n).map_values(|slot: Option<Tx>| claim(slot))
}

/// One pipe per connection: the first request of a connection gets the
/// sender of the handoff, and every later request is refused without getting
/// anything it could send on.
pub proof fn only_first_request_claims<Tx>(tx: Tx, n: nat)
    requires
        n >= 1,
    ensures
        claims(tx, n).len() == n,
        claims(tx, n)[0] == Ok::<Tx, RequestError>(tx),
        forall|i: int|
            1 <= i < n ==> claims(tx, n)[i] == Err::<Tx, RequestError>(
                RequestError::ConnectionReused,
            ),
{
    take_once(tx, n);
}

/// Request mode: the pipe that the node returns after the first request has
/// datagrams on both sides, holds the two bodies, and carries the closing
/// signal of the inner pipe.
pub proof fn request_mode_yields_datagrams<RB, RD, WB, WD, C>(
    closing_notification: Option<C>,
    source: RD,
    sink: WD,
)
    ensures
        finish_of(closing_notification, Some(datagram_sides::<RB, RD, WB, WD>(source, sink)))
            matches Ok(pipe) && pipe.r == Source::<RB, RD>::Datagrams(source) && pipe.w
            == Sink::<WB, WD>::Datagrams(sink) && pipe.r.shape_of() == Shape::Datagrams
            && pipe.w.shape_of() == Shape::Datagrams && pipe.closing_notification
            == closing_notification,
{
}

/// Upgrade mode: after a successful upgrade the node returns a pipe with byte
/// streams on both sides; after a failed one nothing arrives and the node
/// fails instead of waiting on.
pub proof fn upgrade_mode_outcomes<RB, RD, WB, WD, C, E>(
    closing_notification: Option<C>,
    outcome: Result<(RB, WB), E>,
)
    ensures
        outcome matches Ok((r, w)) ==> finish_of(
            closing_notification,
            arrived(upgrade_sides::<RB, RD, WB, WD, E>(outcome)),
        ) matches Ok(pipe) && pipe.r == Source::<RB, RD>::ByteStream(r) && pipe.w == Sink::<
            WB,
            WD,
        >::ByteStream(w) && pipe.r.shape_of() == Shape::ByteStream && pipe.w.shape_of()
            == Shape::ByteStream && pipe.closing_notification == closing_notification,
        outcome is Err ==> finish_of(
            closing_notification,
            arrived(upgrade_sides::<RB, RD, WB, WD, E>(outcome)),
        ) == Err::<Bipipe<RB, RD, WB, WD, C>, NodeError>(NodeError::ClosedWithoutPipe),
{
}

/// Shape mismatch: an inner pipe with datagrams on either side gets no plan
/// to serve a connection, only the refusal.
pub proof fn datagram_inner_is_refused<RB, RD, WB, WD, C>(
    upgrade: bool,
    inner: Bipipe<RB, RD, WB, WD, C>,
)
    ensures
        serve_plan_of(upgrade, inner) is Ok <==> inner.r.shape_of() == Shape::ByteStream
            && inner.w.shape_of() == Shape::ByteStream,
        serve_plan_of(upgrade, inner) matches Err(e) ==> e == NodeError::RequiresByteStream,
{
}

} // verus!
