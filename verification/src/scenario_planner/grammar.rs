//! The specifier mini-language.
//!
//! ```text
//! stack    := overlay* endpoint
//! endpoint := "-" | "stdio:" | ws-url | wss-url | "tcp:" addr-or-host
//!           | "tcp-l:" socket-addr | "ws-l:" socket-addr
//! overlay  := "tls:" | "ws-accept:" | "ws-ll-client:" | "ws-ll-server:"
//! ```
//!
//! `rule_of` says which rule applies to a text, `chunk_of` what that rule
//! makes of the text, and `stack_of` what the whole text denotes.

use crate::address::{socket_address_of, AddressModel};
use crate::scenario_planner::types::{
    ChunkModel, EndpointModel, OverlayModel, ParseErrorModel, StackModel,
};
use crate::uri::{uri_components, UriModel};
use vstd::prelude::*;

verus! {

/// `ws://`
pub open spec fn kw_ws() -> Seq<char> {
    seq!['w', 's', ':', '/', '/']
}

/// `wss://`
pub open spec fn kw_wss() -> Seq<char> {
    seq!['w', 's', 's', ':', '/', '/']
}

/// `tcp:`
pub open spec fn kw_tcp() -> Seq<char> {
    seq!['t', 'c', 'p', ':']
}

/// `tcp-l:`
pub open spec fn kw_tcp_listen() -> Seq<char> {
    seq!['t', 'c', 'p', '-', 'l', ':']
}

/// `-`
pub open spec fn kw_dash() -> Seq<char> {
    seq!['-']
}

/// `stdio:`
pub open spec fn kw_stdio() -> Seq<char> {
    seq!['s', 't', 'd', 'i', 'o', ':']
}

/// `tls:`
pub open spec fn kw_tls() -> Seq<char> {
    seq!['t', 'l', 's', ':']
}

/// `ws-accept:`
pub open spec fn kw_ws_accept() -> Seq<char> {
    seq!['w', 's', '-', 'a', 'c', 'c', 'e', 'p', 't', ':']
}

/// `ws-ll-client:`
pub open spec fn kw_ws_client() -> Seq<char> {
    seq!['w', 's', '-', 'l', 'l', '-', 'c', 'l', 'i', 'e', 'n', 't', ':']
}

/// `ws-ll-server:`
pub open spec fn kw_ws_server() -> Seq<char> {
    seq!['w', 's', '-', 'l', 'l', '-', 's', 'e', 'r', 'v', 'e', 'r', ':']
}

/// `ws-l:`
pub open spec fn kw_ws_listen() -> Seq<char> {
    seq!['w', 's', '-', 'l', ':']
}

/// The endpoint that a WebSocket URL denotes, given what `http` made of it:
/// a rejected text and a URI without authority are errors.
pub open spec fn ws_endpoint_of(secure: bool, parsed: Option<UriModel>) -> Result<
    EndpointModel,
    ParseErrorModel,
> {
    match parsed {
        None => Err(ParseErrorModel::InvalidUri),
        Some(u) => if u.authority is None {
            Err(ParseErrorModel::UrlWithoutAuthority { secure })
        } else if secure {
            Ok(EndpointModel::WssUrl(u))
        } else {
            Ok(EndpointModel::WsUrl(u))
        },
    }
}

/// The TCP connector that the text behind `tcp:` denotes: a literal socket
/// address, or else a host name that is looked up later.
pub open spec fn connect_endpoint_of(rest: Seq<char>) -> EndpointModel {
    match socket_address_of(rest) {
        Some(a) => EndpointModel::TcpConnectByIp(a),
        None => EndpointModel::TcpConnectByLateHostname { hostname: rest },
    }
}

/// What a listener makes of the address that its text denotes, if any.
pub open spec fn listener_for(ws: bool, addr: Option<AddressModel>) -> Result<
    EndpointModel,
    ParseErrorModel,
> {
    match addr {
        Some(a) => Ok(
            if ws {
                EndpointModel::WsListen(a)
            } else {
                EndpointModel::TcpListen(a)
            },
        ),
        None => Err(ParseErrorModel::InvalidSocketAddress),
    }
}

/// The listener that the text behind `tcp-l:` or `ws-l:` denotes: it must be
/// a literal socket address.
pub open spec fn listen_endpoint_of(ws: bool, rest: Seq<char>) -> Result<
    EndpointModel,
    ParseErrorModel,
> {
    listener_for(ws, socket_address_of(rest))
}

/// The TLS overlay as the parser makes it: domain and connector are left
/// empty.
pub open spec fn tls_overlay() -> OverlayModel {
    OverlayModel::TlsClient { domain: Seq::empty(), varname_for_connector: Seq::empty() }
}

/// A terminal chunk.
pub open spec fn endpoint_chunk(e: Result<EndpointModel, ParseErrorModel>) -> Result<
    ChunkModel,
    ParseErrorModel,
> {
    match e {
        Ok(e) => Ok(ChunkModel::Endpoint(e)),
        Err(e) => Err(e),
    }
}

/// The rules of the language.
#[derive(Clone, Copy, Debug, PartialEq, Eq, Hash, Structural)]
pub enum Rule {
    /// `ws://` and what follows is a URL.
    WsUrl,
    /// `wss://` and what follows is a URL.
    WssUrl,
    /// `tcp:` and an address or a host name.
    TcpConnect,
    /// `tcp-l:` and an address.
    TcpListen,
    /// `-` or `stdio:`, with nothing behind.
    Stdio,
    /// `tls:` and a pipeline.
    Tls,
    /// `ws-accept:` and a pipeline.
    WsAccept,
    /// `ws-ll-client:` and a pipeline.
    WsClient,
    /// `ws-ll-server:` and a pipeline.
    WsServer,
    /// `ws-l:` and an address.
    WsListen,
    /// Anything else.
    Unknown,
}

/// The rule that applies to a text: the first one, in this order, whose
/// keyword the text begins with.
#[verifier::opaque]
pub open spec fn rule_of(x: Seq<char>) -> Rule {
    if kw_ws().is_prefix_of(x) {
        Rule::WsUrl
    } else if kw_wss().is_prefix_of(x) {
        Rule::WssUrl
    } else if kw_tcp().is_prefix_of(x) {
        Rule::TcpConnect
    } else if kw_tcp_listen().is_prefix_of(x) {
        Rule::TcpListen
    } else if x == kw_dash() || x == kw_stdio() {
        Rule::Stdio
    } else if kw_tls().is_prefix_of(x) {
        Rule::Tls
    } else if kw_ws_accept().is_prefix_of(x) {
        Rule::WsAccept
    } else if kw_ws_client().is_prefix_of(x) {
        Rule::WsClient
    } else if kw_ws_server().is_prefix_of(x) {
        Rule::WsServer
    } else if kw_ws_listen().is_prefix_of(x) {
        Rule::WsListen
    } else {
        Rule::Unknown
    }
}

/// The keyword that a rule asks for at the front of a text. Standard I/O is
/// written in two ways, each of them the whole text, and has none.
pub open spec fn keyword_of(rule: Rule) -> Seq<char> {
    match rule {
        Rule::WsUrl => kw_ws(),
        Rule::WssUrl => kw_wss(),
        Rule::TcpConnect => kw_tcp(),
        Rule::TcpListen => kw_tcp_listen(),
        Rule::Tls => kw_tls(),
        Rule::WsAccept => kw_ws_accept(),
        Rule::WsClient => kw_ws_client(),
        Rule::WsServer => kw_ws_server(),
        Rule::WsListen => kw_ws_listen(),
        Rule::Stdio | Rule::Unknown => Seq::empty(),
    }
}

/// How many characters at the front of a text a rule takes away before the
/// rest is read. A URL keeps its scheme.
pub open spec fn keyword_len(rule: Rule) -> nat {
    match rule {
        Rule::TcpConnect => 4,
        Rule::TcpListen => 6,
        Rule::Tls => 4,
        Rule::WsAccept => 10,
        Rule::WsClient => 13,
        Rule::WsServer => 13,
        Rule::WsListen => 5,
        Rule::WsUrl | Rule::WssUrl | Rule::Stdio | Rule::Unknown => 0,
    }
}

/// What the rule that applies makes of a text: an endpoint, which ends the
/// pipeline, an overlay with the text that is left, or an error.
pub open spec fn chunk_of(x: Seq<char>) -> Result<ChunkModel, ParseErrorModel> {
    let rest = x.skip(keyword_len(rule_of(x)) as int);
    match rule_of(x) {
        Rule::WsUrl => endpoint_chunk(ws_endpoint_of(false, uri_components(x))),
        Rule::WssUrl => endpoint_chunk(ws_endpoint_of(true, uri_components(x))),
        Rule::TcpConnect => Ok(ChunkModel::Endpoint(connect_endpoint_of(rest))),
        Rule::TcpListen => endpoint_chunk(listen_endpoint_of(false, rest)),
        Rule::Stdio => Ok(ChunkModel::Endpoint(EndpointModel::Stdio)),
        Rule::Tls => Ok(ChunkModel::Overlay { ovl: tls_overlay(), rest }),
        Rule::WsAccept => Ok(ChunkModel::Overlay { ovl: OverlayModel::WsAccept, rest }),
        Rule::WsClient => Ok(
            ChunkModel::Overlay { ovl: OverlayModel::WsFramer { client_mode: true }, rest },
        ),
        Rule::WsServer => Ok(
            ChunkModel::Overlay { ovl: OverlayModel::WsFramer { client_mode: false }, rest },
        ),
        Rule::WsListen => endpoint_chunk(listen_endpoint_of(true, rest)),
        Rule::Unknown => Err(ParseErrorModel::UnknownSpecifier(x)),
    }
}

/// A rule applies only to a text that is at least as long as its keyword.
pub proof fn lemma_rule_fits(x: Seq<char>)
    ensures
        keyword_len(rule_of(x)) <= x.len(),
{
    reveal(rule_of);
}

/// An overlay chunk always leaves less text than it was given.
pub proof fn lemma_overlay_consumes(x: Seq<char>)
    ensures
        chunk_of(x) matches Ok(ChunkModel::Overlay { rest, .. }) ==> rest.len() < x.len(),
{
    lemma_rule_fits(x);
}

/// The stack that a text denotes. An overlay at the front of the text wraps
/// everything that the rest of the text denotes, so it comes last in
/// `overlays`.
pub open spec fn stack_of(x: Seq<char>) -> Result<StackModel, ParseErrorModel>
    decreases x.len(),
{
    match chunk_of(x) {
        Err(e) => Err(e),
        Ok(ChunkModel::Endpoint(e)) => Ok(StackModel { innermost: e, overlays: Seq::empty() }),
        Ok(ChunkModel::Overlay { ovl, rest }) => {
            proof {
                lemma_overlay_consumes(x);
            }
            match stack_of(rest) {
                Err(e) => Err(e),
                Ok(s) => Ok(StackModel { innermost: s.innermost, overlays: s.overlays.push(ovl) }),
            }
        },
    }
}

} // verus!
