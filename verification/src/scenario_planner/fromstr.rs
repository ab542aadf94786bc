//! The parser of the specifier mini-language.

use crate::address::{AddressModel, SocketAddress};
use crate::scenario_planner::grammar::{
    chunk_of, endpoint_chunk, keyword_len, kw_dash, kw_stdio, kw_tcp, kw_tcp_listen, kw_tls,
    kw_ws, kw_ws_accept, kw_ws_client, kw_ws_listen, kw_ws_server, kw_wss,
    lemma_overlay_consumes, listener_for, rule_of, stack_of, ws_endpoint_of, Rule,
};
use crate::scenario_planner::types::{
    overlay_models, ChunkModel, Endpoint, EndpointModel, Overlay, OverlayModel, ParseError,
    ParseErrorModel, ParseStrChunkResult, SpecifierStack, StackModel,
};
use crate::text::chars_of;
use crate::uri::{parse_uri, ParsedUri, UriModel};
use vstd::prelude::*;
use vstd::string::StrSliceExecFns;

verus! {

/// The value of a result whose two sides have values.
pub open spec fn result_view<T: View, E: View>(r: Result<T, E>) -> Result<T::V, E::V> {
    match r {
        Ok(t) => Ok(t@),
        Err(e) => Err(e@),
    }
}

/// What `http` made of a text, without the error's details.
pub open spec fn uri_outcome(parsed: Result<ParsedUri, http::uri::InvalidUri>) -> Option<
    UriModel,
> {
    match parsed {
        Ok(u) => Some(u@),
        Err(_) => None,
    }
}

/// Whether `chars` begins with `prefix`.
pub fn starts_with(chars: &Vec<char>, prefix: &str) -> (b: bool)
    ensures
        b == prefix@.is_prefix_of(chars@),
{
    let p = chars_of(prefix);
    if p.len() > chars.len() {
        return false;
    }
    let mut i: usize = 0;
    while i < p.len()
        invariant
            i <= p.len() <= chars.len(),
            p@ == prefix@,
            forall|j: int| 0 <= j < i ==> p@[j] == chars@[j],
        decreases p.len() - i,
    {
        if p[i] != chars[i] {
            assert(chars@.subrange(0, p.len() as int)[i as int] != p@[i as int]);
            return false;
        }
        i = i + 1;
    }
    assert(p@ =~= chars@.subrange(0, p.len() as int));
    true
}

/// Whether `chars` is exactly `text`.
pub fn equals(chars: &Vec<char>, text: &str) -> (b: bool)
    ensures
        b == (chars@ == text@),
{
    let b = starts_with(chars, text);
    if b && text.unicode_len() == chars.len() {
        assert(chars@.subrange(0, chars@.len() as int) == chars@);
        true
    } else {
        false
    }
}

/// The endpoint for a WebSocket URL, given what `http` made of the text.
pub fn ws_endpoint(secure: bool, parsed: Result<ParsedUri, http::uri::InvalidUri>) -> (r: Result<
    Endpoint,
    ParseError,
>)
    ensures
        result_view(r) == ws_endpoint_of(secure, uri_outcome(parsed)),
{
    match parsed {
        Err(e) => Err(ParseError::InvalidUri(e)),
        Ok(u) => {
            if u.authority.is_none() {
                Err(ParseError::UrlWithoutAuthority { secure })
            } else if secure {
                Ok(Endpoint::WssUrl(u))
            } else {
                Ok(Endpoint::WsUrl(u))
            }
        },
    }
}

/// The values of an optional address.
pub open spec fn address_view(addr: Option<SocketAddress>) -> Option<AddressModel> {
    match addr {
        Some(a) => Some(a@),
        None => None,
    }
}

/// The listener for an address, or the error for a text that is none.
pub fn listen_endpoint(ws: bool, addr: Option<SocketAddress>) -> (r: Result<Endpoint, ParseError>)
    ensures
        result_view(r) == listener_for(ws, address_view(addr)),
{
    match addr {
        Some(a) => Ok(
            if ws {
                Endpoint::WsListen(a)
            } else {
                Endpoint::TcpListen(a)
            },
        ),
        None => Err(ParseError::InvalidSocketAddress),
    }
}

/// The rule that applies to a text.
pub fn classify(chars: &Vec<char>) -> (rule: Rule)
    ensures
        rule == rule_of(chars@),
        keyword_len(rule) <= chars@.len(),
{
    proof {
        reveal(rule_of);
        reveal_strlit("ws://");
        reveal_strlit("wss://");
        reveal_strlit("tcp:");
        reveal_strlit("tcp-l:");
        reveal_strlit("-");
        reveal_strlit("stdio:");
        reveal_strlit("tls:");
        reveal_strlit("ws-accept:");
        reveal_strlit("ws-ll-client:");
        reveal_strlit("ws-ll-server:");
        reveal_strlit("ws-l:");
        assert("ws://"@ =~= kw_ws());
        assert("wss://"@ =~= kw_wss());
        assert("tcp:"@ =~= kw_tcp());
        assert("tcp-l:"@ =~= kw_tcp_listen());
        assert("-"@ =~= kw_dash());
        assert("stdio:"@ =~= kw_stdio());
        assert("tls:"@ =~= kw_tls());
        assert("ws-accept:"@ =~= kw_ws_accept());
        assert("ws-ll-client:"@ =~= kw_ws_client());
        assert("ws-ll-server:"@ =~= kw_ws_server());
        assert("ws-l:"@ =~= kw_ws_listen());
    }
    if starts_with(chars, "ws://") {
        Rule::WsUrl
    } else if starts_with(chars, "wss://") {
        Rule::WssUrl
    } else if starts_with(chars, "tcp:") {
        Rule::TcpConnect
    } else if starts_with(chars, "tcp-l:") {
        Rule::TcpListen
    } else if equals(chars, "-") || equals(chars, "stdio:") {
        Rule::Stdio
    } else if starts_with(chars, "tls:") {
        Rule::Tls
    } else if starts_with(chars, "ws-accept:") {
        Rule::WsAccept
    } else if starts_with(chars, "ws-ll-client:") {
        Rule::WsClient
    } else if starts_with(chars, "ws-ll-server:") {
        Rule::WsServer
    } else if starts_with(chars, "ws-l:") {
        Rule::WsListen
    } else {
        Rule::Unknown
    }
}

/// An endpoint as the result of one step.
fn terminal<'a>(e: Result<Endpoint, ParseError>) -> (r: Result<ParseStrChunkResult<'a>, ParseError>)
    ensures
        result_view(r) == endpoint_chunk(result_view(e)),
{
    match e {
        Ok(e) => Ok(ParseStrChunkResult::Endpoint(e)),
        Err(e) => Err(e),
    }
}

impl<'a> ParseStrChunkResult<'a> {
    /// One step of parsing: finds the rule that applies to the text and
    /// returns what that rule makes of it.
    pub fn from_str(x: &'a str) -> (r: Result<ParseStrChunkResult<'a>, ParseError>)
        ensures
            result_view(r) == chunk_of(x@),
    {
        let chars = chars_of(x);
        let n = chars.len();
        let rule = classify(&chars);
        match rule {
            Rule::WsUrl => terminal(ws_endpoint(false, parse_uri(x))),
            Rule::WssUrl => terminal(ws_endpoint(true, parse_uri(x))),
            Rule::TcpConnect => {
                assert(chars@.subrange(4, n as int) == x@.skip(4));
                match SocketAddress::parse(&chars, 4, n) {
                    Some(a) => Ok(ParseStrChunkResult::Endpoint(Endpoint::TcpConnectByIp(a))),
                    None => Ok(
                        ParseStrChunkResult::Endpoint(
                            Endpoint::TcpConnectByLateHostname {
                                hostname: x.substring_char(4, n).to_owned(),
                            },
                        ),
                    ),
                }
            },
            Rule::TcpListen => {
                assert(chars@.subrange(6, n as int) == x@.skip(6));
                terminal(listen_endpoint(false, SocketAddress::parse(&chars, 6, n)))
            },
            Rule::Stdio => Ok(ParseStrChunkResult::Endpoint(Endpoint::Stdio)),
            Rule::Tls => Ok(
                ParseStrChunkResult::Overlay {
                    ovl: Overlay::TlsClient {
                        domain: String::new(),
                        varname_for_connector: String::new(),
                    },
                    rest: x.substring_char(4, n),
                },
            ),
            Rule::WsAccept => Ok(
                ParseStrChunkResult::Overlay {
                    ovl: Overlay::WsAccept {  },
                    rest: x.substring_char(10, n),
                },
            ),
            Rule::WsClient => Ok(
                ParseStrChunkResult::Overlay {
                    ovl: Overlay::WsFramer { client_mode: true },
                    rest: x.substring_char(13, n),
                },
            ),
            Rule::WsServer => Ok(
                ParseStrChunkResult::Overlay {
                    ovl: Overlay::WsFramer { client_mode: false },
                    rest: x.substring_char(13, n),
                },
            ),
            Rule::WsListen => {
                assert(chars@.subrange(5, n as int) == x@.skip(5));
                terminal(listen_endpoint(true, SocketAddress::parse(&chars, 5, n)))
            },
            Rule::Unknown => Err(ParseError::UnknownSpecifier(x.to_owned())),
        }
    }
}

/// The items of `v` in the opposite order.
pub fn reversed<T>(v: Vec<T>) -> (out: Vec<T>)
    ensures
        out@ == v@.reverse(),
{
    let ghost orig = v@;
    let mut v = v;
    let mut out: Vec<T> = Vec::new();
    while v.len() > 0
        invariant
            out.len() + v.len() == orig.len(),
            v@ == orig.take(v.len() as int),
            forall|j: int| 0 <= j < out.len() ==> out@[j] == orig[orig.len() - 1 - j],
        decreases v.len(),
    {
        let item = v.pop().unwrap();
        out.push(item);
    }
    assert(out@ =~= orig.reverse());
    out
}

/// The stack for the text read so far, given the stack of the text that is
/// left and the overlays met on the way, the first one met first.
spec fn wrapped(inner: Result<StackModel, ParseErrorModel>, met: Seq<OverlayModel>) -> Result<
    StackModel,
    ParseErrorModel,
> {
    match inner {
        Ok(s) => Ok(StackModel { innermost: s.innermost, overlays: s.overlays + met.reverse() }),
        Err(e) => Err(e),
    }
}

/// Reading an overlay first and the rest later gives the same stack as
/// reading the rest with that overlay remembered as the last one met.
proof fn lemma_wrapped_step(
    x: Seq<char>,
    ovl: OverlayModel,
    rest: Seq<char>,
    met: Seq<OverlayModel>,
)
    requires
        chunk_of(x) == Ok::<ChunkModel, ParseErrorModel>(ChunkModel::Overlay { ovl, rest }),
    ensures
        rest.len() < x.len(),
        wrapped(stack_of(x), met) == wrapped(stack_of(rest), met.push(ovl)),
{
    lemma_overlay_consumes(x);
    assert(met.push(ovl).reverse() =~= seq![ovl] + met.reverse());
    if let Ok(s) = stack_of(rest) {
        assert(s.overlays.push(ovl) + met.reverse() =~= s.overlays + met.push(ovl).reverse());
    }
}

/// An endpoint ends the stack: the overlays met before it wrap it, the last
/// one met innermost.
proof fn lemma_wrapped_end(x: Seq<char>, e: EndpointModel, met: Seq<OverlayModel>)
    requires
        chunk_of(x) == Ok::<ChunkModel, ParseErrorModel>(ChunkModel::Endpoint(e)),
    ensures
        wrapped(stack_of(x), met) == Ok::<StackModel, ParseErrorModel>(
            StackModel { innermost: e, overlays: met.reverse() },
        ),
{
    assert(Seq::<OverlayModel>::empty() + met.reverse() =~= met.reverse());
}

/// An error of one step is the error of the whole text.
proof fn lemma_wrapped_error(x: Seq<char>, e: ParseErrorModel, met: Seq<OverlayModel>)
    requires
        chunk_of(x) == Err::<ChunkModel, ParseErrorModel>(e),
    ensures
        wrapped(stack_of(x), met) == Err::<StackModel, ParseErrorModel>(e),
{
}

/// With no overlay met yet, the stack is that of the text itself.
proof fn lemma_wrapped_start(x: Seq<char>)
    ensures
        wrapped(stack_of(x), Seq::empty()) == stack_of(x),
{
    assert(Seq::<OverlayModel>::empty().reverse() =~= Seq::<OverlayModel>::empty());
    if let Ok(s) = stack_of(x) {
        assert(s.overlays + Seq::<OverlayModel>::empty() =~= s.overlays);
    }
}

impl SpecifierStack {
    /// Parses the text of a pipeline. The whole text must follow the
    /// language: on any error nothing is returned but the error.
    pub fn from_str(x: &str) -> (r: Result<SpecifierStack, ParseError>)
        ensures
            result_view(r) == stack_of(x@),
    {
        let ghost whole = x@;
        let mut cur = x;
        let mut overlays: Vec<Overlay> = Vec::new();
        proof {
            lemma_wrapped_start(whole);
            assert(overlay_models(overlays@) =~= Seq::<OverlayModel>::empty());
        }
        loop
            invariant
                whole == x@,
                wrapped(stack_of(cur@), overlay_models(overlays@)) == stack_of(whole),
            decreases cur@.len(),
        {
            let ghost met = overlay_models(overlays@);
            match ParseStrChunkResult::from_str(cur) {
                Err(e) => {
                    proof {
                        lemma_wrapped_error(cur@, e@, met);
                    }
                    return Err(e);
                },
                Ok(ParseStrChunkResult::Endpoint(e)) => {
                    let overlays = reversed(overlays);
                    proof {
                        lemma_wrapped_end(cur@, e@, met);
                        assert(overlay_models(overlays@) =~= met.reverse());
                    }
                    return Ok(SpecifierStack { innermost: e, overlays });
                },
                Ok(ParseStrChunkResult::Overlay { ovl, rest }) => {
                    proof {
                        lemma_wrapped_step(cur@, ovl@, rest@, met);
                        assert(overlay_models(overlays@.push(ovl)) =~= met.push(ovl@));
                    }
                    overlays.push(ovl);
                    cur = rest;
                },
            }
        }
    }
}

} // verus!
