//! Which part of the relay answers a request.

use vstd::prelude::*;
use crate::error::{Error, ErrorView};
use crate::headers::{has_room, lemma_room_after_field, no_fields};
use crate::response::{
    error_response, handle_preflight, health_check, health_response, preflight_fields,
    preflight_response, readable, respond, RelayResponse, RelayResponseView,
};
use crate::text::{same_text, text_bytes};

verus! {

/// The request methods the relay tells apart.
#[derive(Clone, Copy, Debug, PartialEq, Eq, Structural)]
pub enum Method {
    Options,
    Get,
    Post,
    Connect,
    /// Any other method.
    Other,
}

impl Method {
    /// The method that is written `name`; method names are case-sensitive.
    pub open spec fn spec_from_name(name: Seq<char>) -> Method {
        if name == "OPTIONS"@ {
            Method::Options
        } else if name == "GET"@ {
            Method::Get
        } else if name == "POST"@ {
            Method::Post
        } else if name == "CONNECT"@ {
            Method::Connect
        } else {
            Method::Other
        }
    }

    /// The method that is written `name`; method names are case-sensitive.
    pub fn from_name(name: &str) -> (method: Method)
        ensures
            method == Method::spec_from_name(name@),
    {
        if same_text(name, "OPTIONS") {
            Method::Options
        } else if same_text(name, "GET") {
            Method::Get
        } else if same_text(name, "POST") {
            Method::Post
        } else if same_text(name, "CONNECT") {
            Method::Connect
        } else {
            Method::Other
        }
    }
}

/// Which of the two tunnels to the gateway the relay offers.
#[derive(Clone, Copy, Debug, PartialEq, Eq, Structural)]
pub struct Bootstrap {
    /// Tunnels by HTTP CONNECT.
    pub connect: bool,
    /// Tunnels over a WebSocket.
    pub websocket: bool,
}

impl Bootstrap {
    /// Whether any tunnel is offered.
    pub open spec fn spec_any(self) -> bool {
        self.connect || self.websocket
    }

    /// Whether any tunnel is offered.
    pub fn any(self) -> (any: bool)
        ensures
            any == self.spec_any(),
    {
        self.connect || self.websocket
    }
}

/// The parts of the relay that can answer a request.
#[derive(Clone, Copy, Debug, PartialEq, Eq, Structural)]
pub enum Route {
    /// The answer to a preflight request.
    Preflight,
    /// The answer to a liveness probe.
    Health,
    /// The request is forwarded to the gateway.
    Forward,
    /// The request asks for a tunnel to the gateway.
    Bootstrap,
    /// Nothing answers: not found.
    NotFound,
}

/// The route of a request by its method and path. The first of these that
/// fits decides: `OPTIONS` on any path is a preflight; `GET /health` is the
/// liveness probe; `POST /` is forwarded; `CONNECT` and `GET` on any path ask
/// for a tunnel where the relay offers one; everything else is not found.
pub open spec fn route_of(method: Method, path: Seq<char>, bootstrap: Bootstrap) -> Route {
    if method == Method::Options {
        Route::Preflight
    } else if method == Method::Get && path == "/health"@ {
        Route::Health
    } else if method == Method::Post && path == "/"@ {
        Route::Forward
    } else if (method == Method::Connect || method == Method::Get) && bootstrap.spec_any() {
        Route::Bootstrap
    } else {
        Route::NotFound
    }
}

/// A request is forwarded only if it is a `POST` to `/`.
pub proof fn lemma_only_post_root_is_forwarded(
    method: Method,
    path: Seq<char>,
    bootstrap: Bootstrap,
)
    ensures
        route_of(method, path, bootstrap) == Route::Forward <==> method == Method::Post && path
            == "/"@,
{
}

/// The route of a request with the method `method` and the path `path`.
pub fn route(method: Method, path: &str, bootstrap: Bootstrap) -> (route: Route)
    ensures
        route == route_of(method, path@, bootstrap),
{
    match method {
        Method::Options => Route::Preflight,
        Method::Get => {
            if same_text(path, "/health") {
                Route::Health
            } else if bootstrap.any() {
                Route::Bootstrap
            } else {
                Route::NotFound
            }
        },
        Method::Post => {
            if same_text(path, "/") {
                Route::Forward
            } else {
                Route::NotFound
            }
        },
        Method::Connect => {
            if bootstrap.any() {
                Route::Bootstrap
            } else {
                Route::NotFound
            }
        },
        Method::Other => Route::NotFound,
    }
}

/// What the relay does with a request: answer it by itself, or hand it to the
/// part that forwards or to the part that tunnels.
#[derive(Debug)]
pub enum Served {
    /// This answer goes out as it is.
    Answer(RelayResponse),
    /// The request is forwarded to the gateway.
    Forward,
    /// The request asks for a tunnel to the gateway.
    Bootstrap,
}

/// The mathematical value of a [`Served`].
pub enum ServedView {
    Answer(RelayResponseView),
    Forward,
    Bootstrap,
}

impl View for Served {
    type V = ServedView;

    open spec fn view(&self) -> ServedView {
        match self {
            Served::Answer(response) => ServedView::Answer(response@),
            Served::Forward => ServedView::Forward,
            Served::Bootstrap => ServedView::Bootstrap,
        }
    }
}

/// What the relay does with a request, by its route. The answers it gives by
/// itself carry the header that lets a page of any origin read them.
pub open spec fn served_of(route: Route) -> ServedView {
    match route {
        Route::Preflight => ServedView::Answer(readable(preflight_response())),
        Route::Health => ServedView::Answer(readable(health_response())),
        Route::Forward => ServedView::Forward,
        Route::Bootstrap => ServedView::Bootstrap,
        Route::NotFound => ServedView::Answer(readable(error_response(ErrorView::NotFound))),
    }
}

/// `GET /health` is answered by the relay itself, with status 200 and an
/// empty body, whatever tunnels it offers: the request is neither forwarded
/// nor tunnelled, so the gateway never hears of it.
pub proof fn lemma_health_is_answered_locally(bootstrap: Bootstrap)
    ensures
        route_of(Method::Get, "/health"@, bootstrap) == Route::Health,
        served_of(Route::Health) == ServedView::Answer(readable(health_response())),
        readable(health_response()).status == 200,
        readable(health_response()).body == Seq::<u8>::empty(),
{
}

/// The relay's own answers have few fields.
proof fn lemma_own_answers_have_room()
    ensures
        has_room(no_fields()),
        has_room(preflight_fields()),
{
    let origin = no_fields().insert(
        "access-control-allow-origin"@,
        seq![text_bytes("*"@)],
    );
    let methods = origin.insert(
        "access-control-allow-methods"@,
        seq![text_bytes("CONNECT, GET, OPTIONS, POST"@)],
    );
    lemma_room_after_field(no_fields(), "access-control-allow-origin"@, seq![text_bytes("*"@)]);
    lemma_room_after_field(
        origin,
        "access-control-allow-methods"@,
        seq![text_bytes("CONNECT, GET, OPTIONS, POST"@)],
    );
    lemma_room_after_field(
        methods,
        "access-control-allow-headers"@,
        seq![text_bytes("Content-Type, Content-Length"@)],
    );
}

/// Dispatches a request by its method and path: answers a preflight, the
/// liveness probe and what has no route, and names the part of the relay
/// that takes a request to forward or to tunnel.
pub fn serve_ohttp_relay(method: Method, path: &str, bootstrap: Bootstrap) -> (served: Served)
    ensures
        served@ == served_of(route_of(method, path@, bootstrap)),
{
    proof {
        lemma_own_answers_have_room();
    }
    match route(method, path, bootstrap) {
        Route::Preflight => Served::Answer(respond(Ok(handle_preflight()))),
        Route::Health => Served::Answer(respond(Ok(health_check()))),
        Route::Forward => Served::Forward,
        Route::Bootstrap => Served::Bootstrap,
        Route::NotFound => Served::Answer(respond(Err(Error::NotFound))),
    }
}

} // verus!
