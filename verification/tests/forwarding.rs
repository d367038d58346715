use http::header::{
    ACCESS_CONTROL_ALLOW_ORIGIN, AUTHORIZATION, CONTENT_LENGTH, CONTENT_TYPE, COOKIE, HOST,
    USER_AGENT,
};
use http::{HeaderMap, HeaderValue};
use ohttp_relay::error::Error;
use ohttp_relay::forward::{
    forward_request, into_forward_req, ForwardRequest, EXPECTED_MEDIA_TYPE, OHTTP_RELAY_HOST,
};
use ohttp_relay::gateway_uri::GatewayUri;
use ohttp_relay::response::{allow_any_origin, RelayResponse};
use ohttp_relay::router::{route, Bootstrap, Method, Route};

const ENCAPSULATED_REQ: &str = "010020000100014b28f881333e7c164ffc499ad9796f877f4e1051ee6d31bad19dec96c208b4726374e469135906992e1268c594d2a10c695d858c40a026e7965e7d86b83dd440b2c0185204b4d63525";
const ENCAPSULATED_RES: &str =
    "c789e7151fcba46158ca84b04464910d86f9013e404feea014e7be4a441f234f857fbd";

fn from_hex(text: &str) -> Vec<u8> {
    let digits: Vec<u8> = text.chars().map(|c| c.to_digit(16).unwrap() as u8).collect();
    digits.chunks(2).map(|pair| pair[0] * 16 + pair[1]).collect()
}

fn gateway() -> GatewayUri {
    GatewayUri::from_text("http://localhost:8080").unwrap()
}

fn ohttp_headers() -> HeaderMap {
    let mut headers = HeaderMap::new();
    headers.insert(CONTENT_TYPE, HeaderValue::from_static("message/ohttp-req"));
    headers.insert(CONTENT_LENGTH, HeaderValue::from_static("78"));
    headers
}

#[test]
fn constants() {
    assert_eq!(OHTTP_RELAY_HOST, "0.0.0.0");
    assert_eq!(EXPECTED_MEDIA_TYPE, "message/ohttp-req");
}

#[test]
fn test_request_response() {
    let request_body = from_hex(ENCAPSULATED_REQ);
    assert_eq!(request_body.len(), ENCAPSULATED_REQ.len() / 2);
    assert_eq!(route(Method::from_name("POST"), "/", Bootstrap { connect: false, websocket: false }), Route::Forward);
    let forwarded: ForwardRequest =
        into_forward_req(Method::Post, Some("/"), ohttp_headers(), &gateway()).unwrap();
    assert_eq!(forwarded.uri, "http://localhost:8080/");
    assert_eq!(forwarded.headers.get(CONTENT_LENGTH), Some(&HeaderValue::from_static("78")));

    let mut gateway_headers = HeaderMap::new();
    gateway_headers.insert(CONTENT_TYPE, HeaderValue::from_static("message/ohttp-res"));
    gateway_headers.insert(CONTENT_LENGTH, HeaderValue::from_static("35"));
    let answer = RelayResponse { status: 200, headers: gateway_headers, body: from_hex(ENCAPSULATED_RES) };
    let outcome: Result<RelayResponse, String> = Ok(answer);
    let mut res = forward_request(outcome).unwrap();
    assert!(allow_any_origin(&mut res.headers));
    assert_eq!(res.status, 200);
    assert_eq!(res.headers.get(CONTENT_TYPE), Some(&HeaderValue::from_static("message/ohttp-res")));
    assert_eq!(res.headers.get(CONTENT_LENGTH), Some(&HeaderValue::from_static("35")));
    assert_eq!(res.headers.get(ACCESS_CONTROL_ALLOW_ORIGIN), Some(&HeaderValue::from_static("*")));
    assert_eq!(res.body, from_hex(ENCAPSULATED_RES));
    assert_eq!(res.body.len(), 35);
}

#[test]
fn forwarded_request_goes_to_the_gateway_root() {
    let https = GatewayUri::from_text("https://gw.example/ignored").unwrap();
    let forwarded = into_forward_req(Method::Post, Some("/"), ohttp_headers(), &https).unwrap();
    assert_eq!(forwarded.uri, "https://gw.example:443/");
    let plain = GatewayUri::from_text("http://gw.example").unwrap();
    let forwarded = into_forward_req(Method::Post, Some("/"), ohttp_headers(), &plain).unwrap();
    assert_eq!(forwarded.uri, "http://gw.example:80/");
}

#[test]
fn only_host_and_content_length_are_forwarded() {
    let mut headers = ohttp_headers();
    headers.insert(COOKIE, HeaderValue::from_static("session=secret"));
    headers.insert(USER_AGENT, HeaderValue::from_static("browser/1.0"));
    headers.insert(AUTHORIZATION, HeaderValue::from_static("Bearer token"));
    headers.insert(HOST, HeaderValue::from_static("relay.example"));
    headers.insert("x-forwarded-for", HeaderValue::from_static("203.0.113.7"));
    headers.insert("forwarded", HeaderValue::from_static("for=203.0.113.7"));
    let forwarded = into_forward_req(Method::Post, Some("/"), headers, &gateway()).unwrap();
    assert_eq!(forwarded.headers.len(), 2);
    assert_eq!(forwarded.headers.keys_len(), 2);
    assert_eq!(forwarded.headers.get(HOST).unwrap(), "0.0.0.0");
    assert_eq!(forwarded.headers.get(CONTENT_LENGTH).unwrap(), "78");
    assert!(forwarded.headers.get(CONTENT_TYPE).is_none());
    assert!(forwarded.headers.get(COOKIE).is_none());
}

#[test]
fn without_content_length_only_host_is_forwarded() {
    let mut headers = HeaderMap::new();
    headers.insert(CONTENT_TYPE, HeaderValue::from_static("message/ohttp-req"));
    let forwarded = into_forward_req(Method::Post, Some("/"), headers, &gateway()).unwrap();
    assert_eq!(forwarded.headers.len(), 1);
    assert_eq!(forwarded.headers.get(HOST).unwrap(), "0.0.0.0");
}

#[test]
fn first_content_length_is_forwarded_alone() {
    let mut headers = ohttp_headers();
    headers.append(CONTENT_LENGTH, HeaderValue::from_static("79"));
    let forwarded = into_forward_req(Method::Post, Some("/"), headers, &gateway()).unwrap();
    assert_eq!(forwarded.headers.get_all(CONTENT_LENGTH).iter().count(), 1);
    assert_eq!(forwarded.headers.get(CONTENT_LENGTH).unwrap(), "78");
}

#[test]
fn content_length_bytes_are_kept_as_they_are() {
    let mut headers = ohttp_headers();
    headers.insert(CONTENT_LENGTH, HeaderValue::from_bytes(b"7\t8 \xfe").unwrap());
    let forwarded = into_forward_req(Method::Post, Some("/"), headers, &gateway()).unwrap();
    assert_eq!(forwarded.headers.get(CONTENT_LENGTH).unwrap().as_bytes(), b"7\t8 \xfe");
}

#[test]
fn other_methods_are_not_allowed() {
    for method in [Method::Get, Method::Options, Method::Connect, Method::Other] {
        let result = into_forward_req(method, Some("/"), ohttp_headers(), &gateway());
        assert!(matches!(result, Err(Error::MethodNotAllowed)));
    }
    let result = into_forward_req(Method::Get, Some("/other"), HeaderMap::new(), &gateway());
    assert!(matches!(result, Err(Error::MethodNotAllowed)));
}

#[test]
fn other_media_types_are_unsupported() {
    for value in [
        "text/plain",
        "message/ohttp-res",
        "message/ohttp-req; charset=utf-8",
        "Message/Ohttp-Req",
        "message/ohttp-req ",
        "",
    ] {
        let mut headers = HeaderMap::new();
        headers.insert(CONTENT_TYPE, HeaderValue::from_str(value).unwrap());
        headers.insert(CONTENT_LENGTH, HeaderValue::from_static("78"));
        let result = into_forward_req(Method::Post, Some("/"), headers, &gateway());
        let error = result.unwrap_err();
        assert!(matches!(error, Error::UnsupportedMediaType), "{}", value);
        assert_eq!(error.status(), 415);
    }
}

#[test]
fn missing_media_type_is_unsupported() {
    let mut headers = HeaderMap::new();
    headers.insert(CONTENT_LENGTH, HeaderValue::from_static("78"));
    let result = into_forward_req(Method::Post, Some("/"), headers, &gateway());
    assert!(matches!(result, Err(Error::UnsupportedMediaType)));
    let result = into_forward_req(Method::Post, Some("/"), HeaderMap::new(), &gateway());
    assert!(matches!(result, Err(Error::UnsupportedMediaType)));
}

#[test]
fn first_media_type_decides() {
    let mut headers = HeaderMap::new();
    headers.append(CONTENT_TYPE, HeaderValue::from_static("text/plain"));
    headers.append(CONTENT_TYPE, HeaderValue::from_static("message/ohttp-req"));
    let result = into_forward_req(Method::Post, Some("/"), headers, &gateway());
    assert!(matches!(result, Err(Error::UnsupportedMediaType)));
    let mut headers = HeaderMap::new();
    headers.append(CONTENT_TYPE, HeaderValue::from_static("message/ohttp-req"));
    headers.append(CONTENT_TYPE, HeaderValue::from_static("text/plain"));
    assert!(into_forward_req(Method::Post, Some("/"), headers, &gateway()).is_ok());
}

#[test]
fn other_targets_are_not_found() {
    for target in ["/other", "/?query", "//", "", "/health", "*"] {
        let result = into_forward_req(Method::Post, Some(target), ohttp_headers(), &gateway());
        let error = result.unwrap_err();
        assert!(matches!(error, Error::NotFound), "{}", target);
        assert_eq!(error.status(), 404);
    }
}

#[test]
fn request_without_target_is_forwarded() {
    let forwarded = into_forward_req(Method::Post, None, ohttp_headers(), &gateway()).unwrap();
    assert_eq!(forwarded.uri, "http://localhost:8080/");
}

#[test]
fn media_type_is_checked_before_the_target() {
    let result = into_forward_req(Method::Post, Some("/other"), HeaderMap::new(), &gateway());
    assert!(matches!(result, Err(Error::UnsupportedMediaType)));
}

#[test]
fn any_failure_of_the_gateway_is_a_bad_gateway() {
    let refused: Result<u8, String> = Err("connection refused".to_string());
    let failure = forward_request(refused).unwrap_err();
    assert!(matches!(failure, Error::BadGateway));
    assert_eq!(failure.status(), 502);
    let no_name: Result<u8, u32> = Err(7);
    assert!(matches!(forward_request(no_name), Err(Error::BadGateway)));
    let fine: Result<u8, String> = Ok(5);
    assert_eq!(forward_request(fine).unwrap(), 5);
}
