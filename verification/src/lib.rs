//! Pipeline specifier engine of a universal network-pipe tool.
//!
//! A pipeline is written in a compact mini-language (`tls:tcp:127.0.0.1:9000`).
//! This crate holds the parser that turns such a text into a stack of typed
//! stages, the data model of the stages and of the pipes they produce, the
//! take-once handle used for single-delivery handoffs, and the decision rules
//! of the nodes that bridge protocols. The functions carry contracts that
//! Verus proves; the few that call into the `http` crate are marked as
//! trusted where they stand, and say what is taken on trust.
//!
//! - `scenario_planner`: the stages of a pipeline, the grammar of the
//!   mini-language, its parser, and what holds of every text.
//! - `address`, `uri`, `text`: socket addresses, URIs and the character-level
//!   helpers that the parser rests on.
//! - `types`: pipes, their two shapes, and the registry of nodes.
//! - `utils`: the take-once handle.
//! - `http_server`: the node that turns an HTTP connection into a pipe.
//! - `ws_client_peer`: the requests of the WebSocket client connector.
//! - `relay`: the loops of the single-connection relay.
//!
//! The library performs no input or output. Connections, sockets and tasks
//! are the caller's; the library decides what is to be done with them.

pub mod address;
pub mod http_server;
pub mod relay;
pub mod scenario_planner;
pub mod text;
pub mod types;
pub mod uri;
pub mod utils;
pub mod ws_client_peer;
