//! The relay's closed set of failures and how each one is shown to a client.

use vstd::prelude::*;
use vstd::string::*;

verus! {

/// Everything that can go wrong while the relay answers a request.
#[derive(Debug)]
pub enum Error {
    /// The gateway could not be reached or did not answer.
    BadGateway,
    /// The forwarding endpoint was asked with a method other than POST.
    MethodNotAllowed,
    /// The body to forward is not declared as an encapsulated request.
    UnsupportedMediaType,
    /// The request is malformed; the text says how.
    BadRequest(String),
    /// No route, or a forwarding path other than `/`.
    NotFound,
    /// An unexpected failure inside the relay.
    InternalServerError,
}

/// The mathematical value of an [`Error`].
pub enum ErrorView {
    BadGateway,
    MethodNotAllowed,
    UnsupportedMediaType,
    BadRequest(Seq<char>),
    NotFound,
    InternalServerError,
}

impl View for Error {
    type V = ErrorView;

    open spec fn view(&self) -> ErrorView {
        match self {
            Error::BadGateway => ErrorView::BadGateway,
            Error::MethodNotAllowed => ErrorView::MethodNotAllowed,
            Error::UnsupportedMediaType => ErrorView::UnsupportedMediaType,
            Error::BadRequest(detail) => ErrorView::BadRequest(detail@),
            Error::NotFound => ErrorView::NotFound,
            Error::InternalServerError => ErrorView::InternalServerError,
        }
    }
}

impl ErrorView {
    /// The HTTP status that stands for this failure.
    pub open spec fn status(self) -> u16 {
        match self {
            ErrorView::BadGateway => 502,
            ErrorView::MethodNotAllowed => 405,
            ErrorView::UnsupportedMediaType => 415,
            ErrorView::BadRequest(_) => 400,
            ErrorView::NotFound => 404,
            ErrorView::InternalServerError => 500,
        }
    }

    /// The text a client is given with the status: the detail of a bad
    /// request, and nothing for any other failure.
    pub open spec fn detail(self) -> Seq<char> {
        match self {
            ErrorView::BadRequest(detail) => detail,
            _ => Seq::empty(),
        }
    }

    /// The failure in words, for the operator.
    pub open spec fn message(self) -> Seq<char> {
        match self {
            ErrorView::BadGateway => "Bad gateway"@,
            ErrorView::MethodNotAllowed => "Method not allowed"@,
            ErrorView::UnsupportedMediaType => "Unsupported media type"@,
            ErrorView::BadRequest(detail) => "Bad request: "@ + detail,
            ErrorView::NotFound => "Not found"@,
            ErrorView::InternalServerError => "Internal server error"@,
        }
    }
}

impl Error {
    /// The HTTP status that stands for this failure.
    pub fn status(&self) -> (code: u16)
        ensures
            code == self@.status(),
    {
        match self {
            Error::BadGateway => 502,
            Error::MethodNotAllowed => 405,
            Error::UnsupportedMediaType => 415,
            Error::BadRequest(_) => 400,
            Error::NotFound => 404,
            Error::InternalServerError => 500,
        }
    }

    /// The failure in words, for the operator.
    pub fn message(&self) -> (text: String)
        ensures
            text@ == self@.message(),
    {
        match self {
            Error::BadGateway => String::from_str("Bad gateway"),
            Error::MethodNotAllowed => String::from_str("Method not allowed"),
            Error::UnsupportedMediaType => String::from_str("Unsupported media type"),
            Error::BadRequest(detail) => String::from_str("Bad request: ").concat(detail.as_str()),
            Error::NotFound => String::from_str("Not found"),
            Error::InternalServerError => String::from_str("Internal server error"),
        }
    }
}

} // verus!
