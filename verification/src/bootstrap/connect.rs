//! The tunnel to the gateway.
//!
//! A tunnel turns a client's connection into a raw byte stream to the
//! gateway, and to the gateway only: the target of a CONNECT request must
//! name the configured gateway, or the request is refused before anything is
//! resolved or opened. This check is all that keeps the relay from being a
//! proxy to any host. The work itself (resolving, answering, connecting,
//! copying) is the caller's; [`Tunnel`] says which step comes next.

use vstd::prelude::*;
use vstd::string::*;
use crate::error::{Error, ErrorView};
use crate::gateway_uri::{
    names_gateway, Authority, AuthorityView, GatewayUri, GatewayUriView, Scheme, UriParts,
    UriPartsView,
};
use crate::response::{health_check, health_response, RelayResponse};
use crate::router::Method;

verus! {

/// Whether a request asks for a CONNECT tunnel.
pub fn is_connect_request(method: Method) -> (connect: bool)
    ensures
        connect == (method == Method::Connect),
{
    match method {
        Method::Connect => true,
        _ => false,
    }
}

/// The authority that a tunnel for the target `target` is opened to: the
/// gateway's own `host:port` where the target names the gateway, and none
/// where it does not.
pub fn find_allowable_gateway(target: &UriParts, gateway_origin: &GatewayUri) -> (authority: Option<
    String,
>)
    ensures
        names_gateway(gateway_origin@, target@) ==> authority is Some && authority->0@
            == gateway_origin@.authority(),
        !names_gateway(gateway_origin@, target@) ==> authority is None,
{
    if gateway_origin.matches(target) {
        Some(gateway_origin.authority())
    } else {
        None
    }
}

/// The answer that grants a tunnel: success, without a body.
pub fn upgrade_response() -> (response: RelayResponse)
    ensures
        response@ == health_response(),
{
    health_check()
}

/// How far a tunnel has come.
#[derive(Clone, Copy, Debug, PartialEq, Eq, Structural)]
pub enum Tunnel {
    /// A request for a tunnel has arrived; nothing was decided.
    Received,
    /// The request was admitted; the gateway's address is being resolved.
    Resolving,
    /// The client was told that the tunnel is granted and completes the
    /// upgrade of its connection.
    Upgrading,
    /// The connection to the gateway is being opened.
    Connecting,
    /// Bytes are copied between the client and the gateway.
    Splicing,
    /// The tunnel is over.
    Closed,
    /// The request was refused; there is no tunnel.
    Rejected,
}

/// What happened to a tunnel.
#[derive(Debug)]
pub enum TunnelEvent {
    /// The request is a CONNECT request with this target.
    Connect(UriParts),
    /// The request is a WebSocket handshake, which has no target of its own.
    WebSocket,
    /// The gateway's address was resolved, or could not be.
    Resolved(bool),
    /// The client's connection was upgraded, or the upgrade failed.
    Upgraded(bool),
    /// The connection to the gateway was opened, or could not be.
    Connected(bool),
    /// Copying ended: one side closed its stream or failed.
    Finished,
}

/// The mathematical value of a [`TunnelEvent`].
pub enum TunnelEventView {
    Connect(UriPartsView),
    WebSocket,
    Resolved(bool),
    Upgraded(bool),
    Connected(bool),
    Finished,
}

impl View for TunnelEvent {
    type V = TunnelEventView;

    open spec fn view(&self) -> TunnelEventView {
        match self {
            TunnelEvent::Connect(target) => TunnelEventView::Connect(target@),
            TunnelEvent::WebSocket => TunnelEventView::WebSocket,
            TunnelEvent::Resolved(found) => TunnelEventView::Resolved(*found),
            TunnelEvent::Upgraded(done) => TunnelEventView::Upgraded(*done),
            TunnelEvent::Connected(done) => TunnelEventView::Connected(*done),
            TunnelEvent::Finished => TunnelEventView::Finished,
        }
    }
}

/// What the caller does next for a tunnel.
#[derive(Debug)]
pub enum TunnelAction {
    /// Resolve this authority to an address.
    Resolve(String),
    /// Answer the request with [`upgrade_response`] and wait for the client
    /// to upgrade its connection.
    Accept,
    /// Answer the request with this failure.
    Reject(Error),
    /// Open a connection to the address that was resolved.
    Connect,
    /// Copy bytes both ways until one side ends or fails.
    Splice,
    /// Close what is open.
    Close,
    /// Nothing: the event does not concern the tunnel as it stands.
    Nothing,
}

/// The mathematical value of a [`TunnelAction`].
pub enum TunnelActionView {
    Resolve(Seq<char>),
    Accept,
    Reject(ErrorView),
    Connect,
    Splice,
    Close,
    Nothing,
}

impl View for TunnelAction {
    type V = TunnelActionView;

    open spec fn view(&self) -> TunnelActionView {
        match self {
            TunnelAction::Resolve(authority) => TunnelActionView::Resolve(authority@),
            TunnelAction::Accept => TunnelActionView::Accept,
            TunnelAction::Reject(error) => TunnelActionView::Reject(error@),
            TunnelAction::Connect => TunnelActionView::Connect,
            TunnelAction::Splice => TunnelActionView::Splice,
            TunnelAction::Close => TunnelActionView::Close,
            TunnelAction::Nothing => TunnelActionView::Nothing,
        }
    }
}

/// The failure that answers a request for a tunnel to anything but the
/// gateway, or to a gateway that has no address.
pub open spec fn not_the_gateway() -> ErrorView {
    ErrorView::BadRequest("CONNECT Host must be a known gateway socket address"@)
}

/// Whether a request for a tunnel is admitted: a CONNECT request whose target
/// names the gateway, or a WebSocket handshake, which can lead nowhere else.
pub open spec fn admits(gateway: GatewayUriView, event: TunnelEventView) -> bool {
    match event {
        TunnelEventView::Connect(target) => names_gateway(gateway, target),
        TunnelEventView::WebSocket => true,
        _ => false,
    }
}

/// Whether `event` is a request for a tunnel.
pub open spec fn is_request(event: TunnelEventView) -> bool {
    event is Connect || event is WebSocket
}

/// The tunnel after `event`.
pub open spec fn next_tunnel(tunnel: Tunnel, event: TunnelEventView, gateway: GatewayUriView) -> Tunnel {
    match (tunnel, event) {
        (Tunnel::Received, TunnelEventView::Connect(_)) | (
            Tunnel::Received,
            TunnelEventView::WebSocket,
        ) => if admits(gateway, event) {
            Tunnel::Resolving
        } else {
            Tunnel::Rejected
        },
        (Tunnel::Resolving, TunnelEventView::Resolved(found)) => if found {
            Tunnel::Upgrading
        } else {
            Tunnel::Rejected
        },
        (Tunnel::Upgrading, TunnelEventView::Upgraded(done)) => if done {
            Tunnel::Connecting
        } else {
            Tunnel::Closed
        },
        (Tunnel::Connecting, TunnelEventView::Connected(done)) => if done {
            Tunnel::Splicing
        } else {
            Tunnel::Closed
        },
        (Tunnel::Splicing, TunnelEventView::Finished) => Tunnel::Closed,
        _ => tunnel,
    }
}

/// What the caller does after `event`.
pub open spec fn next_action(
    tunnel: Tunnel,
    event: TunnelEventView,
    gateway: GatewayUriView,
) -> TunnelActionView {
    match (tunnel, event) {
        (Tunnel::Received, TunnelEventView::Connect(_)) | (
            Tunnel::Received,
            TunnelEventView::WebSocket,
        ) => if admits(gateway, event) {
            TunnelActionView::Resolve(gateway.authority())
        } else {
            TunnelActionView::Reject(not_the_gateway())
        },
        (Tunnel::Resolving, TunnelEventView::Resolved(found)) => if found {
            TunnelActionView::Accept
        } else {
            TunnelActionView::Reject(not_the_gateway())
        },
        (Tunnel::Upgrading, TunnelEventView::Upgraded(done)) => if done {
            TunnelActionView::Connect
        } else {
            TunnelActionView::Close
        },
        (Tunnel::Connecting, TunnelEventView::Connected(done)) => if done {
            TunnelActionView::Splice
        } else {
            TunnelActionView::Close
        },
        (Tunnel::Splicing, TunnelEventView::Finished) => TunnelActionView::Close,
        _ => TunnelActionView::Nothing,
    }
}

/// The failure for a request that gets no tunnel.
fn refusal() -> (error: Error)
    ensures
        error@ == not_the_gateway(),
{
    Error::BadRequest(String::from_str("CONNECT Host must be a known gateway socket address"))
}

impl Tunnel {
    /// A tunnel for a request that has just arrived.
    pub fn new() -> (tunnel: Tunnel)
        ensures
            tunnel == Tunnel::Received,
    {
        Tunnel::Received
    }

    /// Takes `event` and says what the caller does next.
    ///
    /// A request is admitted or refused on its target alone. Once admitted,
    /// the gateway's authority is resolved; with an address the tunnel is
    /// granted, without one the request is refused. After the client's
    /// upgrade the gateway is connected to and bytes are copied until one
    /// side ends; a failed upgrade or connection closes the tunnel. An event
    /// that does not belong to the tunnel's state changes nothing.
    pub fn step(&mut self, event: TunnelEvent, gateway_origin: &GatewayUri) -> (action: TunnelAction)
        ensures
            *final(self) == next_tunnel(*old(self), event@, gateway_origin@),
            action@ == next_action(*old(self), event@, gateway_origin@),
    {
        match (*self, event) {
            (Tunnel::Received, TunnelEvent::Connect(target)) => {
                match find_allowable_gateway(&target, gateway_origin) {
                    Some(authority) => {
                        *self = Tunnel::Resolving;
                        TunnelAction::Resolve(authority)
                    },
                    None => {
                        *self = Tunnel::Rejected;
                        TunnelAction::Reject(refusal())
                    },
                }
            },
            (Tunnel::Received, TunnelEvent::WebSocket) => {
                *self = Tunnel::Resolving;
                TunnelAction::Resolve(gateway_origin.authority())
            },
            (Tunnel::Resolving, TunnelEvent::Resolved(found)) => {
                if found {
                    *self = Tunnel::Upgrading;
                    TunnelAction::Accept
                } else {
                    *self = Tunnel::Rejected;
                    TunnelAction::Reject(refusal())
                }
            },
            (Tunnel::Upgrading, TunnelEvent::Upgraded(done)) => {
                if done {
                    *self = Tunnel::Connecting;
                    TunnelAction::Connect
                } else {
                    *self = Tunnel::Closed;
                    TunnelAction::Close
                }
            },
            (Tunnel::Connecting, TunnelEvent::Connected(done)) => {
                if done {
                    *self = Tunnel::Splicing;
                    TunnelAction::Splice
                } else {
                    *self = Tunnel::Closed;
                    TunnelAction::Close
                }
            },
            (Tunnel::Splicing, TunnelEvent::Finished) => {
                *self = Tunnel::Closed;
                TunnelAction::Close
            },
            _ => TunnelAction::Nothing,
        }
    }
}

/// The tunnel after all of `events`, in order.
pub open spec fn tunnel_after(tunnel: Tunnel, events: Seq<TunnelEventView>, gateway: GatewayUriView) -> Tunnel
    decreases events.len(),
{
    if events.len() == 0 {
        tunnel
    } else {
        next_tunnel(tunnel_after(tunnel, events.drop_last(), gateway), events.last(), gateway)
    }
}

/// Whether `tunnel` was granted: the client was, or is about to be, told so.
pub open spec fn is_granted(tunnel: Tunnel) -> bool {
    tunnel == Tunnel::Upgrading || tunnel == Tunnel::Connecting || tunnel == Tunnel::Splicing
}

/// A CONNECT request whose target does not name the gateway is refused as a
/// bad request, and nothing that happens afterwards brings the tunnel about:
/// it stays refused, and the caller is never told to resolve, to accept, to
/// connect or to copy.
pub proof fn lemma_other_target_is_rejected(
    gateway: GatewayUriView,
    target: UriPartsView,
    later: Seq<TunnelEventView>,
)
    requires
        !names_gateway(gateway, target),
    ensures
        next_tunnel(Tunnel::Received, TunnelEventView::Connect(target), gateway)
            == Tunnel::Rejected,
        next_action(Tunnel::Received, TunnelEventView::Connect(target), gateway)
            == TunnelActionView::Reject(not_the_gateway()),
        not_the_gateway().status() == 400,
        tunnel_after(Tunnel::Rejected, later, gateway) == Tunnel::Rejected,
        forall|event: TunnelEventView| #[trigger]
            next_action(Tunnel::Rejected, event, gateway) == TunnelActionView::Nothing,
    decreases later.len(),
{
    if later.len() > 0 {
        lemma_other_target_is_rejected(gateway, target, later.drop_last());
    }
}

/// A CONNECT request whose target names the gateway is admitted, and the
/// tunnel is established once the address is resolved, the client has
/// upgraded and the gateway is connected: the caller resolves the gateway's
/// own authority, accepts, connects and copies, in that order.
pub proof fn lemma_gateway_target_is_tunnelled(gateway: GatewayUriView, target: UriPartsView)
    requires
        names_gateway(gateway, target),
    ensures
        next_tunnel(Tunnel::Received, TunnelEventView::Connect(target), gateway)
            == Tunnel::Resolving,
        next_action(Tunnel::Received, TunnelEventView::Connect(target), gateway)
            == TunnelActionView::Resolve(gateway.authority()),
        next_tunnel(Tunnel::Resolving, TunnelEventView::Resolved(true), gateway)
            == Tunnel::Upgrading,
        next_action(Tunnel::Resolving, TunnelEventView::Resolved(true), gateway)
            == TunnelActionView::Accept,
        next_tunnel(Tunnel::Upgrading, TunnelEventView::Upgraded(true), gateway)
            == Tunnel::Connecting,
        next_action(Tunnel::Upgrading, TunnelEventView::Upgraded(true), gateway)
            == TunnelActionView::Connect,
        next_tunnel(Tunnel::Connecting, TunnelEventView::Connected(true), gateway)
            == Tunnel::Splicing,
        next_action(Tunnel::Connecting, TunnelEventView::Connected(true), gateway)
            == TunnelActionView::Splice,
{
}

/// A target may leave out the port where the gateway's port is the default of
/// the target's scheme: a target without scheme and port names the gateway
/// exactly when it has the gateway's host and the gateway's port is 443.
pub proof fn lemma_default_port_may_be_omitted(gateway: GatewayUriView, host: Seq<char>)
    ensures
        names_gateway(
            gateway,
            UriPartsView { scheme: None, authority: Some(AuthorityView { host, port: None }) },
        ) <==> host == gateway.host && gateway.port == 443,
{
    crate::decimal::lemma_authority_text_injective(host, 443, gateway.host, gateway.port);
}

/// No tunnel without admission: whatever happens, a tunnel is granted only
/// if one of the events was a request that the gateway admits.
pub proof fn lemma_granted_only_if_admitted(gateway: GatewayUriView, events: Seq<TunnelEventView>)
    requires
        forall|i: int| 0 <= i < events.len() ==> !admits(gateway, #[trigger] events[i]),
    ensures
        tunnel_after(Tunnel::Received, events, gateway) == Tunnel::Received || tunnel_after(
            Tunnel::Received,
            events,
            gateway,
        ) == Tunnel::Rejected,
    decreases events.len(),
{
    if events.len() > 0 {
        let before = events.drop_last();
        assert forall|i: int| 0 <= i < before.len() implies !admits(gateway, #[trigger] before[i]) by {
            assert(before[i] == events[i]);
        }
        lemma_granted_only_if_admitted(gateway, before);
        assert(!admits(gateway, events[events.len() - 1]));
    }
}

} // verus!
