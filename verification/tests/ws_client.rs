use websocat::ws_client_peer::{
    get_ws_client_peer, get_ws_client_peer_impl, get_ws_client_peer_wrapped, ClientRequest, Mode1,
    Options, Specifier, Transport, WsClient, WsConnect,
};

fn url() -> url::Url {
    url::Url::parse("ws://example.com/socket").unwrap()
}

#[test]
fn binary_is_the_default_mode() {
    let u = url();
    let opts = Options { websocket_text_mode: false, websocket_protocol: None };
    let r: ClientRequest<()> = get_ws_client_peer(&u, &opts);
    assert_eq!(r.mode, Mode1::Binary);
    assert_eq!(r.protocol, None);
    assert_eq!(r.url, &u);
    assert!(matches!(r.transport, Transport::Connect));
}

#[test]
fn text_mode_and_protocol_are_taken_from_the_options() {
    let u = url();
    let opts =
        Options { websocket_text_mode: true, websocket_protocol: Some("chat.v1".to_string()) };
    let r = get_ws_client_peer_wrapped(&u, "inner peer", &opts);
    assert_eq!(r.mode, Mode1::Text);
    assert_eq!(r.protocol.as_deref(), Some("chat.v1"));
    assert_eq!(r.url.as_str(), "ws://example.com/socket");
    assert!(matches!(r.transport, Transport::Over("inner peer")));
}

#[test]
fn transport_is_passed_through() {
    let u = url();
    let opts = Options::default();
    let r = get_ws_client_peer_impl(&u, &opts, Transport::Over(17u8));
    assert!(matches!(r.transport, Transport::Over(17)));
    assert_eq!(r.mode, Mode1::Binary);
    assert_eq!(r.protocol, None);
}

#[test]
fn connect_counts_as_its_inner_stage() {
    let client = WsClient(url());
    assert!(!client.is_multiconnect());
    assert!(!client.uses_global_state());
    let over = WsConnect(WsClient(url()), url());
    assert!(!over.is_multiconnect());
    assert!(!over.uses_global_state());
    assert_eq!(over.1.host_str(), Some("example.com"));
}

#[test]
fn stages_construct_their_requests() {
    let opts = Options { websocket_text_mode: true, websocket_protocol: Some("p".to_string()) };
    let client = WsClient(url());
    let r: ClientRequest<()> = client.construct(&opts);
    assert_eq!(r.url, &client.0);
    assert_eq!(r.mode, Mode1::Text);
    assert_eq!(r.protocol.as_deref(), Some("p"));
    assert!(matches!(r.transport, Transport::Connect));

    let other = url::Url::parse("ws://other.example/").unwrap();
    let over = WsConnect(WsClient(url()), other.clone());
    let r = over.construct(3u8, &Options::default());
    assert_eq!(r.url, &other);
    assert_eq!(r.mode, Mode1::Binary);
    assert_eq!(r.protocol, None);
    assert!(matches!(r.transport, Transport::Over(3)));
}
