//! The forwarding pipeline: from a client's request to the request that goes
//! to the gateway.
//!
//! The relay forwards an encapsulated request without reading it. Of the
//! client's header fields it keeps the length of the body and nothing else:
//! whatever else the client sent says something about the client, and the
//! gateway must not learn it.

use vstd::prelude::*;
use vstd::string::*;
use http::{HeaderMap, HeaderValue};
use crate::error::{Error, ErrorView};
use crate::gateway_uri::{GatewayUri, GatewayUriView};
use crate::headers::{
    clear_headers, first_value, header_fields, lemma_own_fields, lemma_room_after_field,
    no_fields, set_field, set_text_field, with_field,
};
use crate::router::Method;
use crate::text::{ascii_bytes, same_bytes, same_text, text_bytes};

verus! {

/// The host that the relay names in the requests it forwards: itself, not
/// the host the client asked for.
pub const OHTTP_RELAY_HOST: &'static str = "0.0.0.0";

/// The media type of an encapsulated request, the only one that is forwarded.
pub const EXPECTED_MEDIA_TYPE: &'static str = "message/ohttp-req";

/// The request that goes to the gateway: where it goes, and its header
/// fields. The body is the client's, untouched.
#[derive(Debug)]
pub struct ForwardRequest {
    pub uri: String,
    pub headers: HeaderMap<HeaderValue>,
}

/// The mathematical value of a [`ForwardRequest`].
pub struct ForwardRequestView {
    pub uri: Seq<char>,
    pub fields: Map<Seq<char>, Seq<Seq<u8>>>,
}

impl View for ForwardRequest {
    type V = ForwardRequestView;

    open spec fn view(&self) -> ForwardRequestView {
        ForwardRequestView { uri: self.uri@, fields: header_fields(self.headers) }
    }
}

/// Whether `fields` declare the body to be an encapsulated request: the first
/// `Content-Type` is `message/ohttp-req`, byte for byte.
pub open spec fn has_expected_media_type(fields: Map<Seq<char>, Seq<Seq<u8>>>) -> bool {
    fields.contains_key("content-type"@) && fields["content-type"@][0] == text_bytes(
        "message/ohttp-req"@,
    )
}

/// The fields of the forwarded request, given the client's: `Host: 0.0.0.0`,
/// and the client's first `Content-Length` if it sent one.
pub open spec fn forwarded_fields(fields: Map<Seq<char>, Seq<Seq<u8>>>) -> Map<
    Seq<char>,
    Seq<Seq<u8>>,
> {
    let host = with_field(no_fields(), "host"@, "0.0.0.0"@);
    if fields.contains_key("content-length"@) {
        host.insert("content-length"@, seq![fields["content-length"@][0]])
    } else {
        host
    }
}

/// What becomes of a request with the method `method`, the target `target`
/// (path and query, where the request has them) and the fields `fields`, at a
/// relay for `gateway`.
pub open spec fn forwarded(
    method: Method,
    target: Option<Seq<char>>,
    fields: Map<Seq<char>, Seq<Seq<u8>>>,
    gateway: GatewayUriView,
) -> Result<ForwardRequestView, ErrorView> {
    if method != Method::Post {
        Err(ErrorView::MethodNotAllowed)
    } else if !has_expected_media_type(fields) {
        Err(ErrorView::UnsupportedMediaType)
    } else if target is Some && target->0 != "/"@ {
        Err(ErrorView::NotFound)
    } else {
        Ok(ForwardRequestView { uri: gateway.uri(), fields: forwarded_fields(fields) })
    }
}

/// Turns a client's request into the request that is forwarded to the
/// gateway.
///
/// Only `POST` is forwarded: any other method is not allowed. The body must
/// be declared as `message/ohttp-req`; with another `Content-Type`, or none,
/// the media type is unsupported. The target must be `/` and nothing more,
/// else nothing is found. The forwarded request goes to `scheme://host:port/`
/// of the gateway and carries `Host: 0.0.0.0` and the client's
/// `Content-Length`, if there was one. No other field of the client is kept.
pub fn into_forward_req(
    method: Method,
    target: Option<&str>,
    headers: HeaderMap<HeaderValue>,
    gateway_origin: &GatewayUri,
) -> (request: Result<ForwardRequest, Error>)
    ensures
        match forwarded(
            method,
            match target {
                Some(t) => Some(t@),
                None => None,
            },
            header_fields(headers),
            gateway_origin@,
        ) {
            Ok(r) => request is Ok && request->Ok_0@ == r,
            Err(e) => request is Err && request->Err_0@ == e,
        },
{
    proof {
        lemma_own_fields();
    }
    match method {
        Method::Post => {},
        _ => {
            return Err(Error::MethodNotAllowed);
        },
    }
    let mut headers = headers;
    let content_type = first_value(&headers, "content-type");
    let content_length = first_value(&headers, "content-length");
    clear_headers(&mut headers);
    set_text_field(&mut headers, "host", OHTTP_RELAY_HOST);
    let expected = ascii_bytes(EXPECTED_MEDIA_TYPE);
    let declared = match &content_type {
        Some(value) => same_bytes(value.as_slice(), expected.as_slice()),
        None => false,
    };
    if !declared {
        return Err(Error::UnsupportedMediaType);
    }
    if let Some(length) = content_length {
        proof {
            lemma_room_after_field(no_fields(), "host"@, seq![text_bytes("0.0.0.0"@)]);
        }
        set_field(&mut headers, "content-length", length.as_slice());
    }
    if let Some(path) = target {
        if !same_text(path, "/") {
            return Err(Error::NotFound);
        }
    }
    Ok(ForwardRequest { uri: gateway_origin.to_uri(), headers })
}

/// A `POST` whose body is not declared as `message/ohttp-req`, be it
/// declared as something else or not at all, is answered with status 415
/// whatever its target is, and no request for the gateway comes of it.
pub proof fn lemma_other_media_type_is_unsupported(
    target: Option<Seq<char>>,
    fields: Map<Seq<char>, Seq<Seq<u8>>>,
    gateway: GatewayUriView,
)
    requires
        !has_expected_media_type(fields),
    ensures
        forwarded(Method::Post, target, fields, gateway) == Err::<
            ForwardRequestView,
            ErrorView,
        >(ErrorView::UnsupportedMediaType),
        ErrorView::UnsupportedMediaType.status() == 415,
{
}

/// Nothing of what the client sent reaches the gateway but the length of the
/// body: the forwarded request has the field `Host`, which names the relay,
/// the field `Content-Length` if the client sent one, with the client's first
/// value, and no other field.
pub proof fn lemma_only_host_and_length_are_forwarded(fields: Map<Seq<char>, Seq<Seq<u8>>>)
    ensures
        forall|name: Seq<char>| #[trigger]
            forwarded_fields(fields).contains_key(name) ==> name == "host"@ || (name
                == "content-length"@ && fields.contains_key("content-length"@)),
        forwarded_fields(fields).contains_key("host"@),
        forwarded_fields(fields)["host"@] == seq![text_bytes("0.0.0.0"@)],
        fields.contains_key("content-length"@) ==> forwarded_fields(fields).contains_key(
            "content-length"@,
        ) && forwarded_fields(fields)["content-length"@] == seq![fields["content-length"@][0]],
{
    reveal_strlit("host");
    reveal_strlit("content-length");
    assert("host"@.len() == 4);
    assert("content-length"@.len() == 14);
}

/// What the relay makes of the gateway's answer, or of the failure to get
/// one: an answer is passed on as it is, and every failure, whatever it was,
/// is a bad gateway.
pub fn forward_request<T, E>(outcome: Result<T, E>) -> (reply: Result<T, Error>)
    ensures
        match outcome {
            Ok(answer) => reply == Ok::<T, Error>(answer),
            Err(_) => reply is Err && reply->Err_0@ == ErrorView::BadGateway,
        },
{
    match outcome {
        Ok(answer) => Ok(answer),
        Err(_) => Err(Error::BadGateway),
    }
}

} // verus!
