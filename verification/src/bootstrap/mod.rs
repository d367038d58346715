//! The two ways a client can reach the gateway through the relay as a raw
//! byte stream: an HTTP CONNECT tunnel and a WebSocket bridge.

use vstd::prelude::*;
use vstd::string::*;
use crate::error::{Error, ErrorView};
use crate::router::{Bootstrap, Method};

pub mod connect;
pub mod ws;

verus! {

/// The kinds of tunnel a request can ask for.
#[derive(Clone, Copy, Debug, PartialEq, Eq, Structural)]
pub enum Upgrade {
    /// A tunnel by HTTP CONNECT.
    Connect,
    /// A tunnel over a WebSocket.
    WebSocket,
}

/// The tunnel that a request asks for and the relay offers, if any: a
/// `CONNECT` request asks for a CONNECT tunnel, a request with the headers of
/// a WebSocket handshake for a WebSocket bridge.
pub open spec fn upgrade_of(method: Method, websocket: bool, offered: Bootstrap) -> Option<
    Upgrade,
> {
    if offered.connect && method == Method::Connect {
        Some(Upgrade::Connect)
    } else if offered.websocket && websocket {
        Some(Upgrade::WebSocket)
    } else {
        None
    }
}

/// Decides which tunnel answers a request that was routed to the bootstrap
/// handler. `websocket` says whether the request carries the headers of a
/// WebSocket handshake. A request that asks for no tunnel the relay offers is
/// a bad request.
pub fn handle_ohttp_keys(method: Method, websocket: bool, offered: Bootstrap) -> (upgrade: Result<
    Upgrade,
    Error,
>)
    ensures
        match upgrade_of(method, websocket, offered) {
            Some(u) => upgrade == Ok::<Upgrade, Error>(u),
            None => upgrade is Err && upgrade->Err_0@ == ErrorView::BadRequest(
                "Not a supported proxy upgrade request"@,
            ),
        },
{
    if offered.connect && connect::is_connect_request(method) {
        return Ok(Upgrade::Connect);
    }
    if offered.websocket && websocket {
        return Ok(Upgrade::WebSocket);
    }
    Err(Error::BadRequest(String::from_str("Not a supported proxy upgrade request")))
}

} // verus!
