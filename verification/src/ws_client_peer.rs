//! The WebSocket client connector: what to ask of a server, and over what.
//!
//! Connecting is the caller's work. The library settles the request: the URL,
//! the subprotocol to offer, whether messages go out as text or as binary,
//! and whether the handshake runs over a new connection or over a peer that
//! exists already.

use vstd::prelude::*;

verus! {

/// A URL of the `url` crate.
#[verifier::external_type_specification]
#[verifier::external_body]
pub struct ExUrl(url::Url);

/// The options that bear on a WebSocket client.
#[derive(Clone, Debug, PartialEq, Eq)]
pub struct Options {
    /// Send text messages instead of binary ones.
    pub websocket_text_mode: bool,
    /// The subprotocol to offer in the handshake.
    pub websocket_protocol: Option<String>,
}

impl Default for Options {
    /// Binary messages and no subprotocol.
    fn default() -> (opts: Options)
        ensures
            !opts.websocket_text_mode,
            opts.websocket_protocol is None,
    {
        Options { websocket_text_mode: false, websocket_protocol: None }
    }
}

/// The kind of message that outgoing data is sent as.
#[derive(Clone, Copy, Debug, PartialEq, Eq, Hash, Structural)]
pub enum Mode1 {
    Text,
    Binary,
}

/// What the handshake runs over.
#[derive(Debug)]
pub enum Transport<P> {
    /// A connection of its own, made to the host of the URL.
    Connect,
    /// A peer that exists already.
    Over(P),
}

/// A WebSocket client request, ready to be carried out.
#[derive(Debug)]
pub struct ClientRequest<'a, P> {
    pub url: &'a url::Url,
    pub protocol: Option<String>,
    pub mode: Mode1,
    pub transport: Transport<P>,
}

/// The message kind that the options select.
pub open spec fn mode_of(text_mode: bool) -> Mode1 {
    if text_mode {
        Mode1::Text
    } else {
        Mode1::Binary
    }
}

/// The characters of an optional text.
pub open spec fn protocol_text(p: Option<String>) -> Option<Seq<char>> {
    match p {
        Some(t) => Some(t@),
        None => None,
    }
}

/// What a stage of a pipeline says of itself before it is constructed.
pub trait Specifier {
    /// Whether the stage serves more than one connection.
    spec fn multiconnect(&self) -> bool;

    /// Whether the stage serves more than one connection.
    fn is_multiconnect(&self) -> (b: bool)
        ensures
            b == self.multiconnect(),
    ;

    /// Whether the stage keeps state that outlives a connection.
    spec fn global_state(&self) -> bool;

    /// Whether the stage keeps state that outlives a connection.
    fn uses_global_state(&self) -> (b: bool)
        ensures
            b == self.global_state(),
    ;
}

/// Connect to a WebSocket server at a URL.
#[derive(Debug)]
pub struct WsClient(pub url::Url);

/// Run the WebSocket client handshake over the peer of another stage.
#[derive(Debug)]
pub struct WsConnect<T: Specifier>(pub T, pub url::Url);

impl Specifier for WsClient {
    /// A client makes one connection.
    open spec fn multiconnect(&self) -> bool {
        false
    }

    /// A client keeps no state between connections.
    open spec fn global_state(&self) -> bool {
        false
    }

    fn is_multiconnect(&self) -> (b: bool) {
        false
    }

    fn uses_global_state(&self) -> (b: bool) {
        false
    }
}

impl<T: Specifier> Specifier for WsConnect<T> {
    /// The stage serves as many connections as the stage it wraps.
    open spec fn multiconnect(&self) -> bool {
        self.0.multiconnect()
    }

    /// The handshake itself keeps no state between connections.
    open spec fn global_state(&self) -> bool {
        false
    }

    fn is_multiconnect(&self) -> (b: bool) {
        self.0.is_multiconnect()
    }

    fn uses_global_state(&self) -> (b: bool) {
        false
    }
}

/// The request for a URL under the given options: the subprotocol is offered
/// when one is configured, and the message kind follows the text-mode option.
pub fn get_ws_client_peer_impl<'a, P>(
    uri: &'a url::Url,
    opts: &Options,
    transport: Transport<P>,
) -> (r: ClientRequest<'a, P>)
    ensures
        r.url == uri,
        r.mode == mode_of(opts.websocket_text_mode),
        protocol_text(r.protocol) == protocol_text(opts.websocket_protocol),
        r.transport == transport,
{
    let mode = if opts.websocket_text_mode {
        Mode1::Text
    } else {
        Mode1::Binary
    };
    let protocol = match &opts.websocket_protocol {
        Some(p) => Some(p.clone()),
        None => None,
    };
    ClientRequest { url: uri, protocol, mode, transport }
}

/// The request of a client that makes its own connection.
pub fn get_ws_client_peer<'a, P>(uri: &'a url::Url, opts: &Options) -> (r: ClientRequest<'a, P>)
    ensures
        r.url == uri,
        r.mode == mode_of(opts.websocket_text_mode),
        protocol_text(r.protocol) == protocol_text(opts.websocket_protocol),
        r.transport == Transport::<P>::Connect,
{
    get_ws_client_peer_impl(uri, opts, Transport::Connect)
}

/// The request of a client whose handshake runs over `inner`.
pub fn get_ws_client_peer_wrapped<'a, P>(uri: &'a url::Url, inner: P, opts: &Options) -> (r:
    ClientRequest<'a, P>)
    ensures
        r.url == uri,
        r.mode == mode_of(opts.websocket_text_mode),
        protocol_text(r.protocol) == protocol_text(opts.websocket_protocol),
        r.transport == Transport::Over(inner),
{
    get_ws_client_peer_impl(uri, opts, Transport::Over(inner))
}

impl WsClient {
    /// The request that constructs the peer of this stage: one connection to
    /// the server of the URL.
    pub fn construct<'a, P>(&'a self, opts: &Options) -> (r: ClientRequest<'a, P>)
        ensures
            r.url == &self.0,
            r.mode == mode_of(opts.websocket_text_mode),
            protocol_text(r.protocol) == protocol_text(opts.websocket_protocol),
            r.transport == Transport::<P>::Connect,
    {
        get_ws_client_peer(&self.0, opts)
    }
}

impl<T: Specifier> WsConnect<T> {
    /// The request that constructs the peer of this stage over a peer that
    /// the inner stage has constructed. A stage that serves many connections
    /// asks once for each peer of its inner stage.
    pub fn construct<'a, P>(&'a self, inner: P, opts: &Options) -> (r: ClientRequest<'a, P>)
        ensures
            r.url == &self.1,
            r.mode == mode_of(opts.websocket_text_mode),
            protocol_text(r.protocol) == protocol_text(opts.websocket_protocol),
            r.transport == Transport::Over(inner),
    {
        get_ws_client_peer_wrapped(&self.1, inner, opts)
    }
}

} // verus!
