use websocat::address::SocketAddress;
use websocat::scenario_planner::fromstr::{classify, listen_endpoint, ws_endpoint};
use websocat::scenario_planner::grammar::Rule;
use websocat::scenario_planner::types::{
    Endpoint, Overlay, ParseError, ParseStrChunkResult, SpecifierStack,
};
use websocat::uri::ParsedUri;

fn tls() -> Overlay {
    Overlay::TlsClient { domain: String::new(), varname_for_connector: String::new() }
}

fn local_9000() -> SocketAddress {
    SocketAddress::V4 { octets: [127, 0, 0, 1], port: 9000 }
}

#[test]
fn single_overlay_over_tcp() {
    let stack = SpecifierStack::from_str("tls:tcp:127.0.0.1:9000").unwrap();
    assert_eq!(stack.innermost, Endpoint::TcpConnectByIp(local_9000()));
    assert_eq!(stack.overlays, vec![tls()]);
}

#[test]
fn overlays_are_stored_innermost_first() {
    let stack = SpecifierStack::from_str("ws-ll-client:tls:tcp:127.0.0.1:9000").unwrap();
    assert_eq!(stack.innermost, Endpoint::TcpConnectByIp(local_9000()));
    assert_eq!(stack.overlays.len(), 2);
    assert_eq!(stack.overlays[0], tls());
    assert_eq!(stack.overlays[1], Overlay::WsFramer { client_mode: true });
}

#[test]
fn three_overlays_keep_their_order() {
    let stack =
        SpecifierStack::from_str("ws-accept:ws-ll-server:tls:tcp-l:0.0.0.0:1234").unwrap();
    assert_eq!(
        stack.innermost,
        Endpoint::TcpListen(SocketAddress::V4 { octets: [0, 0, 0, 0], port: 1234 })
    );
    assert_eq!(
        stack.overlays,
        vec![tls(), Overlay::WsFramer { client_mode: false }, Overlay::WsAccept {}]
    );
}

#[test]
fn unknown_specifier_names_the_text() {
    match SpecifierStack::from_str("foo:bar") {
        Err(ParseError::UnknownSpecifier(text)) => assert_eq!(text, "foo:bar"),
        other => panic!("unexpected: {:?}", other),
    }
    let message = SpecifierStack::from_str("foo:bar").unwrap_err().message();
    assert_eq!(message, "Unknown specifier: foo:bar");
}

#[test]
fn unknown_specifier_names_what_is_left() {
    match SpecifierStack::from_str("tls:ws-accept:foo:bar") {
        Err(ParseError::UnknownSpecifier(text)) => assert_eq!(text, "foo:bar"),
        other => panic!("unexpected: {:?}", other),
    }
}

#[test]
fn empty_text_is_unknown() {
    assert!(matches!(
        SpecifierStack::from_str(""),
        Err(ParseError::UnknownSpecifier(text)) if text.is_empty()
    ));
    assert!(matches!(SpecifierStack::from_str("tls:"), Err(ParseError::UnknownSpecifier(_))));
}

#[test]
fn listener_needs_an_address() {
    let err = SpecifierStack::from_str("tcp-l:not-an-address").unwrap_err();
    assert!(matches!(err, ParseError::InvalidSocketAddress));
    assert_eq!(err.message(), "invalid socket address syntax");
    assert!(matches!(
        SpecifierStack::from_str("ws-l:localhost:80"),
        Err(ParseError::InvalidSocketAddress)
    ));
    assert!(matches!(
        SpecifierStack::from_str("tls:tcp-l:127.0.0.1"),
        Err(ParseError::InvalidSocketAddress)
    ));
}

#[test]
fn connector_accepts_a_host_name() {
    let stack = SpecifierStack::from_str("tcp:not-an-address").unwrap();
    assert_eq!(
        stack.innermost,
        Endpoint::TcpConnectByLateHostname { hostname: "not-an-address".to_string() }
    );
    assert!(stack.overlays.is_empty());
    let stack = SpecifierStack::from_str("tcp:example.com:443").unwrap();
    assert_eq!(
        stack.innermost,
        Endpoint::TcpConnectByLateHostname { hostname: "example.com:443".to_string() }
    );
    let stack = SpecifierStack::from_str("tcp:").unwrap();
    assert_eq!(stack.innermost, Endpoint::TcpConnectByLateHostname { hostname: String::new() });
}

#[test]
fn listeners() {
    let stack = SpecifierStack::from_str("tcp-l:127.0.0.1:8080").unwrap();
    assert_eq!(
        stack.innermost,
        Endpoint::TcpListen(SocketAddress::V4 { octets: [127, 0, 0, 1], port: 8080 })
    );
    let stack = SpecifierStack::from_str("ws-l:[::1]:8080").unwrap();
    assert_eq!(
        stack.innermost,
        Endpoint::WsListen(SocketAddress::V6 {
            segments: [0, 0, 0, 0, 0, 0, 0, 1],
            scope_id: 0,
            port: 8080
        })
    );
}

#[test]
fn stdio_forms() {
    assert_eq!(SpecifierStack::from_str("-").unwrap().innermost, Endpoint::Stdio);
    assert_eq!(SpecifierStack::from_str("stdio:").unwrap().innermost, Endpoint::Stdio);
    let stack = SpecifierStack::from_str("ws-ll-server:-").unwrap();
    assert_eq!(stack.innermost, Endpoint::Stdio);
    assert_eq!(stack.overlays, vec![Overlay::WsFramer { client_mode: false }]);
    assert!(matches!(SpecifierStack::from_str("--"), Err(ParseError::UnknownSpecifier(_))));
    assert!(matches!(
        SpecifierStack::from_str("stdio:x"),
        Err(ParseError::UnknownSpecifier(_))
    ));
}

#[test]
fn websocket_urls() {
    let stack = SpecifierStack::from_str("ws://example.com:8080/chat?room=1").unwrap();
    match stack.innermost {
        Endpoint::WsUrl(u) => {
            assert_eq!(u.scheme.as_deref(), Some("ws"));
            assert_eq!(u.authority.as_deref(), Some("example.com:8080"));
            assert_eq!(u.path_and_query.as_deref(), Some("/chat?room=1"));
        }
        other => panic!("unexpected: {:?}", other),
    }
    let stack = SpecifierStack::from_str("wss://echo.example.org/").unwrap();
    match stack.innermost {
        Endpoint::WssUrl(u) => {
            assert_eq!(u.scheme.as_deref(), Some("wss"));
            assert_eq!(u.authority.as_deref(), Some("echo.example.org"));
            assert_eq!(u.path_and_query.as_deref(), Some("/"));
        }
        other => panic!("unexpected: {:?}", other),
    }
}

#[test]
fn websocket_url_agrees_with_http() {
    let text = "ws://user@host.example:81/a/b?c=d";
    let uri = http::Uri::try_from(text).unwrap();
    match SpecifierStack::from_str(text).unwrap().innermost {
        Endpoint::WsUrl(u) => {
            assert_eq!(u.scheme.as_deref(), uri.scheme_str());
            assert_eq!(u.authority.as_deref(), uri.authority().map(|a| a.as_str()));
            assert_eq!(u.path_and_query.as_deref(), uri.path_and_query().map(|p| p.as_str()));
        }
        other => panic!("unexpected: {:?}", other),
    }
}

#[test]
fn bad_websocket_urls() {
    let err = SpecifierStack::from_str("ws://exa mple.com/").unwrap_err();
    assert!(matches!(err, ParseError::InvalidUri(_)));
    assert!(!err.message().is_empty());
    assert!(matches!(SpecifierStack::from_str("wss://"), Err(ParseError::InvalidUri(_))));
    assert!(matches!(SpecifierStack::from_str("tls:ws:///path"), Err(ParseError::InvalidUri(_))));
}

#[test]
fn one_step_of_parsing() {
    match ParseStrChunkResult::from_str("tls:tcp:127.0.0.1:9000").unwrap() {
        ParseStrChunkResult::Overlay { ovl, rest } => {
            assert_eq!(ovl, tls());
            assert_eq!(rest, "tcp:127.0.0.1:9000");
        }
        other => panic!("unexpected: {:?}", other),
    }
    match ParseStrChunkResult::from_str("ws-accept:-").unwrap() {
        ParseStrChunkResult::Overlay { ovl, rest } => {
            assert_eq!(ovl, Overlay::WsAccept {});
            assert_eq!(rest, "-");
        }
        other => panic!("unexpected: {:?}", other),
    }
    match ParseStrChunkResult::from_str("ws-ll-client:ws-ll-server:x").unwrap() {
        ParseStrChunkResult::Overlay { ovl, rest } => {
            assert_eq!(ovl, Overlay::WsFramer { client_mode: true });
            assert_eq!(rest, "ws-ll-server:x");
        }
        other => panic!("unexpected: {:?}", other),
    }
    assert!(matches!(
        ParseStrChunkResult::from_str("tcp:10.0.0.1:1").unwrap(),
        ParseStrChunkResult::Endpoint(Endpoint::TcpConnectByIp(_))
    ));
}

#[test]
fn text_outside_ascii() {
    let stack = SpecifierStack::from_str("tls:tcp:b\u{fc}cher.example:80").unwrap();
    assert_eq!(
        stack.innermost,
        Endpoint::TcpConnectByLateHostname { hostname: "b\u{fc}cher.example:80".to_string() }
    );
    match SpecifierStack::from_str("tls:\u{2603}") {
        Err(ParseError::UnknownSpecifier(text)) => assert_eq!(text, "\u{2603}"),
        other => panic!("unexpected: {:?}", other),
    }
}

#[test]
fn url_without_authority_is_refused() {
    let bare = ParsedUri { scheme: None, authority: None, path_and_query: Some("/x".to_string()) };
    let err = ws_endpoint(false, Ok(bare.clone())).unwrap_err();
    assert!(matches!(err, ParseError::UrlWithoutAuthority { secure: false }));
    assert_eq!(err.message(), "ws:// URL without authority");
    let err = ws_endpoint(true, Ok(bare)).unwrap_err();
    assert!(matches!(err, ParseError::UrlWithoutAuthority { secure: true }));
    assert_eq!(err.message(), "wss:// URL without authority");
}

#[test]
fn url_with_authority_is_an_endpoint() {
    let full = ParsedUri {
        scheme: Some("ws".to_string()),
        authority: Some("h".to_string()),
        path_and_query: None,
    };
    assert_eq!(ws_endpoint(false, Ok(full.clone())).unwrap(), Endpoint::WsUrl(full.clone()));
    assert_eq!(ws_endpoint(true, Ok(full.clone())).unwrap(), Endpoint::WssUrl(full));
    let refused = http::Uri::try_from("ws://a b").unwrap_err();
    assert!(matches!(ws_endpoint(true, Err(refused)), Err(ParseError::InvalidUri(_))));
}

#[test]
fn listener_endpoints() {
    let a = SocketAddress::V4 { octets: [1, 2, 3, 4], port: 5 };
    assert_eq!(listen_endpoint(false, Some(a)).unwrap(), Endpoint::TcpListen(a));
    assert_eq!(listen_endpoint(true, Some(a)).unwrap(), Endpoint::WsListen(a));
    assert!(matches!(listen_endpoint(true, None), Err(ParseError::InvalidSocketAddress)));
}

#[test]
fn rules_by_keyword() {
    let rule = |text: &str| classify(&text.chars().collect());
    assert_eq!(rule("ws://h"), Rule::WsUrl);
    assert_eq!(rule("wss://h"), Rule::WssUrl);
    assert_eq!(rule("tcp:h"), Rule::TcpConnect);
    assert_eq!(rule("tcp-l:h"), Rule::TcpListen);
    assert_eq!(rule("-"), Rule::Stdio);
    assert_eq!(rule("stdio:"), Rule::Stdio);
    assert_eq!(rule("tls:"), Rule::Tls);
    assert_eq!(rule("ws-accept:"), Rule::WsAccept);
    assert_eq!(rule("ws-ll-client:"), Rule::WsClient);
    assert_eq!(rule("ws-ll-server:"), Rule::WsServer);
    assert_eq!(rule("ws-l:"), Rule::WsListen);
    assert_eq!(rule("ws-ll:"), Rule::Unknown);
    assert_eq!(rule("ws:/"), Rule::Unknown);
    assert_eq!(rule("TCP:h"), Rule::Unknown);
    assert_eq!(rule("tcp"), Rule::Unknown);
    assert_eq!(rule(" tcp:h"), Rule::Unknown);
    assert_eq!(rule(""), Rule::Unknown);
}
