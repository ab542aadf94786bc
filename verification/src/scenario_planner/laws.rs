//! What holds of every text of the specifier mini-language.

use crate::address::socket_address_of;
use crate::scenario_planner::grammar::{
    chunk_of, connect_endpoint_of, keyword_of, kw_dash, kw_stdio, kw_tcp, kw_tcp_listen, kw_ws,
    kw_ws_listen, kw_wss, lemma_overlay_consumes, listen_endpoint_of, rule_of, stack_of,
    tls_overlay, ws_endpoint_of, Rule,
};
use crate::scenario_planner::types::{
    ChunkModel, EndpointModel, OverlayModel, ParseErrorModel, StackModel,
};
use crate::uri::uri_components;
use vstd::prelude::*;

verus! {

/// The overlays that a text names, in the order in which they are written:
/// the first one is the outermost.
pub open spec fn overlays_in_text(x: Seq<char>) -> Seq<OverlayModel>
    decreases x.len(),
{
    match chunk_of(x) {
        Ok(ChunkModel::Overlay { ovl, rest }) => {
            proof {
                lemma_overlay_consumes(x);
            }
            seq![ovl] + overlays_in_text(rest)
        },
        _ => Seq::empty(),
    }
}

/// The text that is left when every overlay at the front has been read: the
/// text of the endpoint.
pub open spec fn endpoint_text(x: Seq<char>) -> Seq<char>
    decreases x.len(),
{
    match chunk_of(x) {
        Ok(ChunkModel::Overlay { ovl, rest }) => {
            proof {
                lemma_overlay_consumes(x);
            }
            endpoint_text(rest)
        },
        _ => x,
    }
}

/// Overlay ordering: the overlays of a parsed stack are those that the text
/// names, in the opposite order. So `overlays[0]` is the overlay written
/// last, next to the endpoint, and the last of `overlays` is the one written
/// first. The endpoint of the stack is what the text behind the overlays
/// denotes.
pub proof fn overlays_run_endpoint_outward(x: Seq<char>)
    requires
        stack_of(x) is Ok,
    ensures
        stack_of(x)->Ok_0.overlays == overlays_in_text(x).reverse(),
        overlays_in_text(x).len() > 0 ==> stack_of(x)->Ok_0.overlays[0] == overlays_in_text(
            x,
        ).last() && stack_of(x)->Ok_0.overlays.last() == overlays_in_text(x)[0],
        chunk_of(endpoint_text(x)) == Ok::<ChunkModel, ParseErrorModel>(
            ChunkModel::Endpoint(stack_of(x)->Ok_0.innermost),
        ),
    decreases x.len(),
{
    match chunk_of(x) {
        Ok(ChunkModel::Overlay { ovl, rest }) => {
            lemma_overlay_consumes(x);
            overlays_run_endpoint_outward(rest);
            let inner = overlays_in_text(rest);
            assert((seq![ovl] + inner).reverse() =~= inner.reverse().push(ovl));
        },
        _ => {
            assert(overlays_in_text(x).reverse() =~= Seq::<OverlayModel>::empty());
        },
    }
}

/// All or nothing: a text denotes a stack exactly when its endpoint text
/// denotes an endpoint, and otherwise the error is the one that the endpoint
/// text gives.
pub proof fn parse_is_all_or_nothing(x: Seq<char>)
    ensures
        stack_of(x) is Ok <==> chunk_of(endpoint_text(x)) is Ok,
        stack_of(x) matches Err(e) ==> chunk_of(endpoint_text(x)) == Err::<
            ChunkModel,
            ParseErrorModel,
        >(e),
    decreases x.len(),
{
    match chunk_of(x) {
        Ok(ChunkModel::Overlay { ovl, rest }) => {
            lemma_overlay_consumes(x);
            parse_is_all_or_nothing(rest);
            lemma_endpoint_text_is_no_overlay(rest);
        },
        _ => {},
    }
}

/// The endpoint text does not begin with an overlay.
pub proof fn lemma_endpoint_text_is_no_overlay(x: Seq<char>)
    ensures
        !(chunk_of(endpoint_text(x)) matches Ok(ChunkModel::Overlay { .. })),
    decreases x.len(),
{
    match chunk_of(x) {
        Ok(ChunkModel::Overlay { ovl, rest }) => {
            lemma_overlay_consumes(x);
            lemma_endpoint_text_is_no_overlay(rest);
        },
        _ => {},
    }
}

/// The stack that wraps another in one more overlay.
pub open spec fn with_overlay(inner: Result<StackModel, ParseErrorModel>, ovl: OverlayModel) -> Result<
    StackModel,
    ParseErrorModel,
> {
    match inner {
        Ok(s) => Ok(StackModel { innermost: s.innermost, overlays: s.overlays.push(ovl) }),
        Err(e) => Err(e),
    }
}

/// A stack that is an endpoint and nothing else, or the error of the
/// endpoint.
pub open spec fn bare_stack(e: Result<EndpointModel, ParseErrorModel>) -> Result<
    StackModel,
    ParseErrorModel,
> {
    match e {
        Ok(e) => Ok(StackModel { innermost: e, overlays: Seq::empty() }),
        Err(e) => Err(e),
    }
}

/// Whether a text is of the form that a rule asks for, whatever the other
/// rules say of it.
pub open spec fn rule_matches(rule: Rule, x: Seq<char>) -> bool {
    match rule {
        Rule::Stdio => x == kw_dash() || x == kw_stdio(),
        Rule::Unknown => false,
        _ => keyword_of(rule).is_prefix_of(x),
    }
}

/// A text that begins with a keyword holds the characters of the keyword.
pub proof fn lemma_prefix_chars(k: Seq<char>, t: Seq<char>)
    requires
        k.is_prefix_of(t),
    ensures
        k.len() <= t.len(),
        forall|i: int| 0 <= i < k.len() ==> t[i] == k[i],
{
    assert forall|i: int| 0 <= i < k.len() implies t[i] == k[i] by {
        assert(t.subrange(0, k.len() as int)[i] == t[i]);
    }
}

/// A keyword is at the front of whatever it is written in front of, and the
/// text behind it is what it was written in front of.
pub proof fn lemma_keyword_in_front(k: Seq<char>, x: Seq<char>)
    ensures
        k.is_prefix_of(k + x),
        (k + x).skip(k.len() as int) == x,
        (k + x).len() == k.len() + x.len(),
{
    assert((k + x).subrange(0, k.len() as int) =~= k);
    assert((k + x).skip(k.len() as int) =~= x);
}

/// The characters by which the form of one rule differs from the forms of
/// all others.
proof fn lemma_rule_chars(rule: Rule, x: Seq<char>)
    requires
        rule_matches(rule, x),
    ensures
        x.len() >= 1,
        match rule {
            Rule::WsUrl => x.len() >= 3 && x[0] == 'w' && x[2] == ':',
            Rule::WssUrl => x.len() >= 3 && x[0] == 'w' && x[2] == 's',
            Rule::TcpConnect => x.len() >= 4 && x[0] == 't' && x[1] == 'c' && x[3] == ':',
            Rule::TcpListen => x.len() >= 4 && x[0] == 't' && x[1] == 'c' && x[3] == '-',
            Rule::Stdio => x[0] == '-' || x[0] == 's',
            Rule::Tls => x.len() >= 2 && x[0] == 't' && x[1] == 'l',
            Rule::WsAccept => x.len() >= 4 && x[0] == 'w' && x[2] == '-' && x[3] == 'a',
            Rule::WsClient => x.len() >= 7 && x[0] == 'w' && x[2] == '-' && x[3] == 'l' && x[4]
                == 'l' && x[6] == 'c',
            Rule::WsServer => x.len() >= 7 && x[0] == 'w' && x[2] == '-' && x[3] == 'l' && x[4]
                == 'l' && x[6] == 's',
            Rule::WsListen => x.len() >= 5 && x[0] == 'w' && x[2] == '-' && x[3] == 'l' && x[4]
                == ':',
            Rule::Unknown => true,
        },
{
    let k = keyword_of(rule);
    match rule {
        Rule::Stdio => {
            if x == kw_dash() {
                assert(x[0] == kw_dash()[0]);
            } else {
                assert(x[0] == kw_stdio()[0]);
            }
        },
        Rule::Unknown => {},
        Rule::WsUrl | Rule::WssUrl => {
            lemma_prefix_chars(k, x);
            assert(x[0] == k[0] && x[2] == k[2]);
        },
        Rule::Tls => {
            lemma_prefix_chars(k, x);
            assert(x[0] == k[0] && x[1] == k[1]);
        },
        Rule::TcpConnect | Rule::TcpListen | Rule::WsAccept => {
            lemma_prefix_chars(k, x);
            assert(x[0] == k[0] && x[1] == k[1] && x[2] == k[2] && x[3] == k[3]);
        },
        Rule::WsListen => {
            lemma_prefix_chars(k, x);
            assert(x[0] == k[0] && x[2] == k[2] && x[3] == k[3] && x[4] == k[4]);
        },
        Rule::WsClient | Rule::WsServer => {
            lemma_prefix_chars(k, x);
            assert(x[0] == k[0] && x[2] == k[2] && x[3] == k[3] && x[4] == k[4] && x[6] == k[6]);
        },
    }
}

/// No text is of the form of two rules.
pub proof fn rules_do_not_overlap(a: Rule, b: Rule, x: Seq<char>)
    requires
        rule_matches(a, x),
        rule_matches(b, x),
    ensures
        a == b,
{
    lemma_rule_chars(a, x);
    lemma_rule_chars(b, x);
}

/// The order of the rules decides nothing: the rule that applies to a text
/// is the one rule whose form the text has, and no rule applies to a text
/// that has the form of none.
pub proof fn rule_is_the_one_that_matches(x: Seq<char>)
    ensures
        rule_of(x) != Rule::Unknown ==> rule_matches(rule_of(x), x),
        forall|rule: Rule| rule_matches(rule, x) ==> rule_of(x) == rule,
{
    reveal(rule_of);
    assert forall|rule: Rule| rule_matches(rule, x) implies rule_of(x) == rule by {
        assert(rule_of(x) != Rule::Unknown);
        rules_do_not_overlap(rule_of(x), rule, x);
    }
}

/// A keyword at the front of a text selects its rule, whatever follows.
pub proof fn keyword_selects_rule(rule: Rule, rest: Seq<char>)
    requires
        rule != Rule::Stdio,
        rule != Rule::Unknown,
    ensures
        rule_of(keyword_of(rule) + rest) == rule,
{
    lemma_keyword_in_front(keyword_of(rule), rest);
    rule_is_the_one_that_matches(keyword_of(rule) + rest);
    assert(rule_matches(rule, keyword_of(rule) + rest));
}

/// The rule that reads an overlay.
pub open spec fn overlay_rule(ovl: OverlayModel) -> Rule {
    match ovl {
        OverlayModel::TlsClient { .. } => Rule::Tls,
        OverlayModel::WsAccept => Rule::WsAccept,
        OverlayModel::WsFramer { client_mode } => if client_mode {
            Rule::WsClient
        } else {
            Rule::WsServer
        },
    }
}

/// The overlays that the parser makes: a TLS client comes out of it with
/// domain and connector left empty.
pub open spec fn parsed_overlay(ovl: OverlayModel) -> bool {
    ovl is TlsClient ==> ovl == tls_overlay()
}

/// Writing the keyword of an overlay in front of a text wraps what the text
/// denotes in that overlay, as the outermost one; an error of the text stays
/// the error.
pub proof fn keyword_wraps(ovl: OverlayModel, x: Seq<char>)
    requires
        parsed_overlay(ovl),
    ensures
        stack_of(keyword_of(overlay_rule(ovl)) + x) == with_overlay(stack_of(x), ovl),
{
    keyword_selects_rule(overlay_rule(ovl), x);
    lemma_keyword_in_front(keyword_of(overlay_rule(ovl)), x);
}

/// `-` and `stdio:` both denote standard input and output, with no overlay.
pub proof fn stdio_has_two_forms()
    ensures
        stack_of(kw_dash()) == bare_stack(Ok(EndpointModel::Stdio)),
        stack_of(kw_stdio()) == bare_stack(Ok(EndpointModel::Stdio)),
{
    rule_is_the_one_that_matches(kw_dash());
    rule_is_the_one_that_matches(kw_stdio());
    assert(rule_matches(Rule::Stdio, kw_dash()));
    assert(rule_matches(Rule::Stdio, kw_stdio()));
}

/// A text that begins with `ws://` or `wss://` is handed to the URI parser
/// whole, scheme included, and denotes the endpoint for what comes back.
pub proof fn url_is_read_whole(secure: bool, rest: Seq<char>)
    ensures
        stack_of((if secure { kw_wss() } else { kw_ws() }) + rest) == bare_stack(
            ws_endpoint_of(
                secure,
                uri_components((if secure { kw_wss() } else { kw_ws() }) + rest),
            ),
        ),
{
    keyword_selects_rule(if secure { Rule::WssUrl } else { Rule::WsUrl }, rest);
}

/// Whatever is written behind `tcp:` is accepted: a literal socket address
/// as such, anything else as a host name, with no look-up and no check.
pub proof fn connector_accepts_any_text(rest: Seq<char>)
    ensures
        stack_of(kw_tcp() + rest) == bare_stack(Ok(connect_endpoint_of(rest))),
        socket_address_of(rest) is None ==> stack_of(kw_tcp() + rest) == bare_stack(
            Ok(EndpointModel::TcpConnectByLateHostname { hostname: rest }),
        ),
{
    keyword_selects_rule(Rule::TcpConnect, rest);
    lemma_keyword_in_front(kw_tcp(), rest);
}

/// A listener is checked when the text is parsed: what is written behind
/// `tcp-l:` or `ws-l:` must be a literal socket address, or the text is
/// refused.
pub proof fn listener_needs_an_address(ws: bool, rest: Seq<char>)
    ensures
        stack_of((if ws { kw_ws_listen() } else { kw_tcp_listen() }) + rest) == bare_stack(
            listen_endpoint_of(ws, rest),
        ),
        socket_address_of(rest) is None ==> stack_of(
            (if ws { kw_ws_listen() } else { kw_tcp_listen() }) + rest,
        ) == Err::<StackModel, ParseErrorModel>(ParseErrorModel::InvalidSocketAddress),
{
    let rule = if ws { Rule::WsListen } else { Rule::TcpListen };
    keyword_selects_rule(rule, rest);
    lemma_keyword_in_front(keyword_of(rule), rest);
}

} // verus!
