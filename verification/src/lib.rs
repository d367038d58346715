//! The decisions of an oblivious-HTTP relay.
//!
//! A relay stands between a client and one configured gateway. It forwards
//! encapsulated requests that it cannot read, and it can turn a connection
//! into a raw byte stream to that same gateway, by HTTP CONNECT or over a
//! WebSocket. This crate holds what the relay decides: which gateway a URI
//! names, which part of the relay answers a request, what is forwarded and
//! what is kept back, when a tunnel is granted, and how the messages of a
//! WebSocket become a stream of bytes. Sockets, the HTTP engine and the
//! runtime belong to the program around it.

use vstd::prelude::*;

pub mod bootstrap;
pub mod decimal;
pub mod error;
pub mod forward;
pub mod gateway_uri;
pub mod headers;
pub mod response;
pub mod router;
pub mod text;

pub use crate::error::Error;
pub use crate::forward::{
    forward_request, into_forward_req, ForwardRequest, EXPECTED_MEDIA_TYPE, OHTTP_RELAY_HOST,
};
pub use crate::gateway_uri::{Authority, GatewayUri, Scheme, UriParts};
pub use crate::response::{
    allow_any_origin, handle_preflight, health_check, respond, RelayResponse,
};
pub use crate::router::{route, serve_ohttp_relay, Bootstrap, Method, Route, Served};

verus! {

/// The port the relay listens on when none is configured.
pub const DEFAULT_PORT: u16 = 3000;

} // verus!
