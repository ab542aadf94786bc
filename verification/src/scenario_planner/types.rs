//! The stages of a pipeline: one endpoint and the overlays stacked on it.

use crate::address::{AddressModel, SocketAddress};
use crate::uri::{invalid_uri_reason, ParsedUri, UriModel};
use vstd::prelude::*;
use vstd::string::StringExecFns;

verus! {

/// A terminal stage: it performs the actual connect, listen or standard I/O.
#[derive(Clone, Debug, PartialEq, Eq)]
pub enum Endpoint {
    /// Connect to a `ws://` URL.
    WsUrl(ParsedUri),
    /// Connect to a `wss://` URL.
    WssUrl(ParsedUri),
    /// Connect by TCP to a literal address.
    TcpConnectByIp(SocketAddress),
    /// Connect by TCP to a host that is resolved when the connection is made.
    TcpConnectByLateHostname { hostname: String },
    /// Listen for TCP connections.
    TcpListen(SocketAddress),
    /// Listen for WebSocket connections.
    WsListen(SocketAddress),
    /// Standard input and output.
    Stdio,
}

/// Mathematical value of an `Endpoint`.
pub enum EndpointModel {
    WsUrl(UriModel),
    WssUrl(UriModel),
    TcpConnectByIp(AddressModel),
    TcpConnectByLateHostname { hostname: Seq<char> },
    TcpListen(AddressModel),
    WsListen(AddressModel),
    Stdio,
}

impl View for Endpoint {
    type V = EndpointModel;

    open spec fn view(&self) -> EndpointModel {
        match *self {
            Endpoint::WsUrl(u) => EndpointModel::WsUrl(u@),
            Endpoint::WssUrl(u) => EndpointModel::WssUrl(u@),
            Endpoint::TcpConnectByIp(a) => EndpointModel::TcpConnectByIp(a@),
            Endpoint::TcpConnectByLateHostname { hostname } => EndpointModel::TcpConnectByLateHostname {
                hostname: hostname@,
            },
            Endpoint::TcpListen(a) => EndpointModel::TcpListen(a@),
            Endpoint::WsListen(a) => EndpointModel::WsListen(a@),
            Endpoint::Stdio => EndpointModel::Stdio,
        }
    }
}

/// A stage that wraps exactly one inner stage.
#[derive(Clone, Debug, PartialEq, Eq)]
pub enum Overlay {
    /// TLS client over the inner byte stream.
    TlsClient { domain: String, varname_for_connector: String },
    /// WebSocket server handshake over the inner byte stream.
    WsAccept {  },
    /// WebSocket framing over the inner byte stream.
    WsFramer { client_mode: bool },
}

/// Mathematical value of an `Overlay`.
pub enum OverlayModel {
    TlsClient { domain: Seq<char>, varname_for_connector: Seq<char> },
    WsAccept,
    WsFramer { client_mode: bool },
}

impl View for Overlay {
    type V = OverlayModel;

    open spec fn view(&self) -> OverlayModel {
        match *self {
            Overlay::TlsClient { domain, varname_for_connector } => OverlayModel::TlsClient {
                domain: domain@,
                varname_for_connector: varname_for_connector@,
            },
            Overlay::WsAccept {  } => OverlayModel::WsAccept,
            Overlay::WsFramer { client_mode } => OverlayModel::WsFramer { client_mode },
        }
    }
}

/// One parsed pipeline: the endpoint and the overlays applied to it.
///
/// `overlays[0]` is applied directly on `innermost`; the last overlay is the
/// outermost one.
#[derive(Clone, Debug, PartialEq, Eq)]
pub struct SpecifierStack {
    pub innermost: Endpoint,
    pub overlays: Vec<Overlay>,
}

/// Mathematical value of a `SpecifierStack`.
pub struct StackModel {
    pub innermost: EndpointModel,
    pub overlays: Seq<OverlayModel>,
}

/// The values of a list of overlays.
pub open spec fn overlay_models(overlays: Seq<Overlay>) -> Seq<OverlayModel> {
    overlays.map_values(|o: Overlay| o@)
}

impl View for SpecifierStack {
    type V = StackModel;

    open spec fn view(&self) -> StackModel {
        StackModel { innermost: self.innermost@, overlays: overlay_models(self.overlays@) }
    }
}

/// What one step of parsing yields: the endpoint that ends the pipeline, or an
/// overlay and the text that is left to parse.
#[derive(Debug)]
pub enum ParseStrChunkResult<'a> {
    Endpoint(Endpoint),
    Overlay { ovl: Overlay, rest: &'a str },
}

/// Mathematical value of a `ParseStrChunkResult`.
pub enum ChunkModel {
    Endpoint(EndpointModel),
    Overlay { ovl: OverlayModel, rest: Seq<char> },
}

impl<'a> View for ParseStrChunkResult<'a> {
    type V = ChunkModel;

    open spec fn view(&self) -> ChunkModel {
        match *self {
            ParseStrChunkResult::Endpoint(e) => ChunkModel::Endpoint(e@),
            ParseStrChunkResult::Overlay { ovl, rest } => ChunkModel::Overlay {
                ovl: ovl@,
                rest: rest@,
            },
        }
    }
}

/// Why a text is no pipeline.
#[derive(Debug)]
pub enum ParseError {
    /// The text after `ws://` or `wss://` is no URI; the error is that of
    /// the `http` crate.
    InvalidUri(http::uri::InvalidUri),
    /// A WebSocket URL without host.
    UrlWithoutAuthority { secure: bool },
    /// A listener was given something that is no literal socket address.
    InvalidSocketAddress,
    /// No rule of the language matches the text held here.
    UnknownSpecifier(String),
}

/// Mathematical value of a `ParseError`.
pub enum ParseErrorModel {
    InvalidUri,
    UrlWithoutAuthority { secure: bool },
    InvalidSocketAddress,
    UnknownSpecifier(Seq<char>),
}

impl View for ParseError {
    type V = ParseErrorModel;

    open spec fn view(&self) -> ParseErrorModel {
        match *self {
            ParseError::InvalidUri(_) => ParseErrorModel::InvalidUri,
            ParseError::UrlWithoutAuthority { secure } => ParseErrorModel::UrlWithoutAuthority {
                secure,
            },
            ParseError::InvalidSocketAddress => ParseErrorModel::InvalidSocketAddress,
            ParseError::UnknownSpecifier(text) => ParseErrorModel::UnknownSpecifier(text@),
        }
    }
}

/// The human-readable cause of an error, where the library words it itself.
pub open spec fn message_of(e: ParseErrorModel) -> Option<Seq<char>> {
    match e {
        ParseErrorModel::InvalidUri => None,
        ParseErrorModel::UrlWithoutAuthority { secure } => Some(
            if secure {
                "wss:// URL without authority"@
            } else {
                "ws:// URL without authority"@
            },
        ),
        ParseErrorModel::InvalidSocketAddress => Some("invalid socket address syntax"@),
        ParseErrorModel::UnknownSpecifier(text) => Some("Unknown specifier: "@ + text),
    }
}

impl ParseError {
    /// The human-readable cause. For a text that is no URI it is the reason
    /// that `http` gives.
    pub fn message(&self) -> (m: String)
        ensures
            message_of(self@) matches Some(text) ==> m@ == text,
    {
        match self {
            ParseError::InvalidUri(e) => invalid_uri_reason(e),
            ParseError::UrlWithoutAuthority { secure } => {
                if *secure {
                    String::from_str("wss:// URL without authority")
                } else {
                    String::from_str("ws:// URL without authority")
                }
            },
            ParseError::InvalidSocketAddress => String::from_str("invalid socket address syntax"),
            ParseError::UnknownSpecifier(text) => String::from_str("Unknown specifier: ").concat(
                text.as_str(),
            ),
        }
    }
}

} // verus!
