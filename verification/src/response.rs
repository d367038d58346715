//! The answers the relay gives by itself, and the header that every answer
//! carries so that a browser may read it.

use vstd::prelude::*;
use vstd::string::*;
use http::{HeaderMap, HeaderValue};
use crate::error::{Error, ErrorView};
use crate::headers::{
    has_room, header_fields, lemma_own_fields, new_headers, no_fields, set_text_field, with_field,
};
use crate::text::text_bytes;

verus! {

/// An answer of the relay: a status, header fields and a body.
#[derive(Debug)]
pub struct RelayResponse {
    pub status: u16,
    pub headers: HeaderMap<HeaderValue>,
    pub body: Vec<u8>,
}

/// The mathematical value of a [`RelayResponse`].
pub struct RelayResponseView {
    pub status: u16,
    pub fields: Map<Seq<char>, Seq<Seq<u8>>>,
    pub body: Seq<u8>,
}

impl View for RelayResponse {
    type V = RelayResponseView;

    open spec fn view(&self) -> RelayResponseView {
        RelayResponseView {
            status: self.status,
            fields: header_fields(self.headers),
            body: self.body@,
        }
    }
}

/// `fields` with the header that lets a page of any origin read the answer.
pub open spec fn with_any_origin(fields: Map<Seq<char>, Seq<Seq<u8>>>) -> Map<
    Seq<char>,
    Seq<Seq<u8>>,
> {
    with_field(fields, "access-control-allow-origin"@, "*"@)
}

/// The fields of the answer to a preflight request.
pub open spec fn preflight_fields() -> Map<Seq<char>, Seq<Seq<u8>>> {
    with_field(
        with_field(
            with_any_origin(no_fields()),
            "access-control-allow-methods"@,
            "CONNECT, GET, OPTIONS, POST"@,
        ),
        "access-control-allow-headers"@,
        "Content-Type, Content-Length"@,
    )
}

/// The answer to a preflight request: no content, and the three fields that
/// say what a page may send.
pub open spec fn preflight_response() -> RelayResponseView {
    RelayResponseView { status: 204, fields: preflight_fields(), body: Seq::empty() }
}

/// The answer to a liveness probe: success, no fields, no body.
pub open spec fn health_response() -> RelayResponseView {
    RelayResponseView { status: 200, fields: no_fields(), body: Seq::empty() }
}

/// The answer that shows the failure `error`: its status, no fields, and its
/// detail as the body.
pub open spec fn error_response(error: ErrorView) -> RelayResponseView {
    RelayResponseView {
        status: error.status(),
        fields: no_fields(),
        body: vstd::utf8::encode_utf8(error.detail()),
    }
}

/// `response` with the header that lets a page of any origin read it.
pub open spec fn readable(response: RelayResponseView) -> RelayResponseView {
    RelayResponseView {
        status: response.status,
        fields: with_any_origin(response.fields),
        body: response.body,
    }
}

/// Adds to `headers` the field `Access-Control-Allow-Origin: *`, which lets
/// a page of any origin read the answer, in place of any such field.
///
/// The result says whether the map took the field; a map refuses only when
/// it is full, and then holds what it held.
pub fn allow_any_origin(headers: &mut HeaderMap<HeaderValue>) -> (stored: bool)
    ensures
        stored ==> header_fields(*final(headers)) == with_any_origin(header_fields(*old(headers))),
        !stored ==> header_fields(*final(headers)) == header_fields(*old(headers)),
        has_room(header_fields(*old(headers))) ==> stored,
{
    proof {
        lemma_own_fields();
    }
    set_text_field(headers, "access-control-allow-origin", "*")
}

/// The answer to a preflight request (`OPTIONS`): status 204 without a body,
/// with `Access-Control-Allow-Origin: *`, `Access-Control-Allow-Methods:
/// CONNECT, GET, OPTIONS, POST` and `Access-Control-Allow-Headers:
/// Content-Type, Content-Length`.
pub fn handle_preflight() -> (response: RelayResponse)
    ensures
        response@ == preflight_response(),
{
    proof {
        lemma_own_fields();
    }
    let mut headers = new_headers();
    set_text_field(&mut headers, "access-control-allow-origin", "*");
    set_text_field(&mut headers, "access-control-allow-methods", "CONNECT, GET, OPTIONS, POST");
    set_text_field(&mut headers, "access-control-allow-headers", "Content-Type, Content-Length");
    RelayResponse { status: 204, headers, body: Vec::new() }
}

/// The answer to a liveness probe (`GET /health`): status 200, no body.
pub fn health_check() -> (response: RelayResponse)
    ensures
        response@ == health_response(),
{
    RelayResponse { status: 200, headers: new_headers(), body: Vec::new() }
}

impl Error {
    /// The answer that shows this failure to the client: the status of its
    /// kind and an empty body, but for a bad request, whose detail is the
    /// body.
    pub fn to_response(&self) -> (response: RelayResponse)
        ensures
            response@ == error_response(self@),
    {
        let body = match self {
            Error::BadRequest(detail) => detail.as_str().as_bytes_vec(),
            _ => Vec::new(),
        };
        proof {
            assert(vstd::utf8::encode_utf8(Seq::<char>::empty()) =~= Seq::<u8>::empty()) by {
                vstd::utf8::is_ascii_chars_encode_utf8(Seq::<char>::empty());
            }
        }
        RelayResponse { status: self.status(), headers: new_headers(), body }
    }
}

/// The answer that goes out for `outcome`: the answer itself, or the one
/// that shows the failure, with `Access-Control-Allow-Origin: *` added.
///
/// An answer whose header map is full and refuses the field gives way to
/// the answer for an internal failure, which carries the field.
pub fn respond(outcome: Result<RelayResponse, Error>) -> (response: RelayResponse)
    ensures
        ({
            let plain = match outcome {
                Ok(r) => r@,
                Err(e) => error_response(e@),
            };
            ||| response@ == readable(plain)
            ||| !has_room(plain.fields) && response@ == readable(
                error_response(ErrorView::InternalServerError),
            )
        }),
        response@.fields.contains_key("access-control-allow-origin"@),
        response@.fields["access-control-allow-origin"@] == seq![text_bytes("*"@)],
{
    let mut response = match outcome {
        Ok(r) => r,
        Err(e) => e.to_response(),
    };
    if allow_any_origin(&mut response.headers) {
        response
    } else {
        let mut fallback = Error::InternalServerError.to_response();
        allow_any_origin(&mut fallback.headers);
        fallback
    }
}

} // verus!
