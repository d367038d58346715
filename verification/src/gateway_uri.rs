//! The one gateway the relay serves.
//!
//! A gateway is configured as a URI. What the relay keeps of it is the scheme,
//! the host and a port that is always explicit: where the URI names none, the
//! scheme's default stands in. Whether a request may be tunnelled is decided
//! on the authority `host:port` of that normal form, so `https://gw.example`
//! and `https://gw.example:443` are one gateway.

use vstd::prelude::*;
use vstd::string::*;
use crate::decimal::{authority_text, decimal_string, lemma_authority_text_injective};
use crate::error::{Error, ErrorView};
use crate::text::same_text;

verus! {

/// The schemes a gateway can be reached by.
#[derive(Clone, Copy, Debug, PartialEq, Eq, Structural)]
pub enum Scheme {
    Http,
    Https,
}

impl Scheme {
    /// The port that stands for a URI of this scheme that names none.
    pub open spec fn spec_default_port(self) -> u16 {
        match self {
            Scheme::Http => 80,
            Scheme::Https => 443,
        }
    }

    /// The scheme as it is written in a URI.
    pub open spec fn spec_text(self) -> Seq<char> {
        match self {
            Scheme::Http => "http"@,
            Scheme::Https => "https"@,
        }
    }

    /// The port that stands for a URI of this scheme that names none.
    pub fn default_port(self) -> (port: u16)
        ensures
            port == self.spec_default_port(),
    {
        match self {
            Scheme::Http => 80,
            Scheme::Https => 443,
        }
    }

    /// The scheme as it is written in a URI.
    pub fn as_str(self) -> (text: &'static str)
        ensures
            text@ == self.spec_text(),
    {
        match self {
            Scheme::Http => "http",
            Scheme::Https => "https",
        }
    }
}

/// The authority of a URI: its host, and its port if it names one.
#[derive(Clone, Debug)]
pub struct Authority {
    pub host: String,
    pub port: Option<u16>,
}

/// The mathematical value of an [`Authority`].
pub struct AuthorityView {
    pub host: Seq<char>,
    pub port: Option<u16>,
}

impl View for Authority {
    type V = AuthorityView;

    open spec fn view(&self) -> AuthorityView {
        AuthorityView { host: self.host@, port: self.port }
    }
}

/// What the relay reads of a URI: the scheme and the authority, each present
/// or not.
#[derive(Clone, Debug)]
pub struct UriParts {
    pub scheme: Option<String>,
    pub authority: Option<Authority>,
}

/// The mathematical value of a [`UriParts`].
pub struct UriPartsView {
    pub scheme: Option<Seq<char>>,
    pub authority: Option<AuthorityView>,
}

impl View for UriParts {
    type V = UriPartsView;

    open spec fn view(&self) -> UriPartsView {
        UriPartsView {
            scheme: match self.scheme {
                Some(s) => Some(s@),
                None => None,
            },
            authority: match self.authority {
                Some(a) => Some(a@),
                None => None,
            },
        }
    }
}

/// The scheme and authority that the `http` crate reads from `text`, or
/// `None` where it does not accept `text` as a URI.
pub uninterp spec fn uri_parts(text: Seq<char>) -> Option<UriPartsView>;

/// Parses `text` as a URI with `http::Uri::from_str` and copies out the
/// scheme (`scheme_str`) and the authority's host and port (`host`,
/// `port_u16`). The contract only gives the outcome its name, `uri_parts`:
/// the parser reads nothing but `text`.
#[verifier::external_body]
fn parse_uri(text: &str) -> (parts: Option<UriParts>)
    ensures
        match parts {
            Some(p) => uri_parts(text@) == Some(p@),
            None => uri_parts(text@) is None,
        },
{
    match text.parse::<http::Uri>() {
        Ok(uri) => Some(
            UriParts {
                scheme: uri.scheme_str().map(String::from),
                authority: uri.authority().map(
                    |a| Authority { host: a.host().to_string(), port: a.port_u16() },
                ),
            },
        ),
        Err(_) => None,
    }
}

/// The mathematical value of a [`GatewayUri`].
pub struct GatewayUriView {
    pub scheme: Scheme,
    pub host: Seq<char>,
    pub port: u16,
}

impl GatewayUriView {
    /// The authority `host:port`.
    pub open spec fn authority(self) -> Seq<char> {
        authority_text(self.host, self.port)
    }

    /// The URI `scheme://host:port/` that requests are forwarded to.
    pub open spec fn uri(self) -> Seq<char> {
        self.scheme.spec_text() + "://"@ + self.authority() + "/"@
    }
}

/// Why a URI cannot be a gateway.
pub enum Refusal {
    /// The text is no URI.
    InvalidUri,
    /// The scheme is neither `http` nor `https`.
    UnsupportedScheme,
    /// There is no authority.
    MissingAuthority,
}

impl Refusal {
    /// The text that tells the operator what is wrong.
    pub open spec fn detail(self) -> Seq<char> {
        match self {
            Refusal::InvalidUri => "Invalid URI"@,
            Refusal::UnsupportedScheme => "Unsupported URI scheme"@,
            Refusal::MissingAuthority => "URI must have an authority"@,
        }
    }
}

/// The scheme a URI with the scheme text `scheme` is taken to have: `https`
/// where there is none, no scheme at all where the text is neither `http` nor
/// `https`.
pub open spec fn scheme_of(scheme: Option<Seq<char>>) -> Option<Scheme> {
    match scheme {
        None => Some(Scheme::Https),
        Some(s) => if s == "http"@ {
            Some(Scheme::Http)
        } else if s == "https"@ {
            Some(Scheme::Https)
        } else {
            None
        },
    }
}

/// The normal form of a URI with the given parts, or why it has none.
pub open spec fn normalized(parts: UriPartsView) -> Result<GatewayUriView, Refusal> {
    match scheme_of(parts.scheme) {
        None => Err(Refusal::UnsupportedScheme),
        Some(scheme) => match parts.authority {
            None => Err(Refusal::MissingAuthority),
            Some(authority) => Ok(
                GatewayUriView {
                    scheme,
                    host: authority.host,
                    port: match authority.port {
                        Some(port) => port,
                        None => scheme.spec_default_port(),
                    },
                },
            ),
        },
    }
}

/// The normal form of what was parsed from a text, or why it has none.
pub open spec fn normalized_parsed(parsed: Option<UriPartsView>) -> Result<
    GatewayUriView,
    Refusal,
> {
    match parsed {
        None => Err(Refusal::InvalidUri),
        Some(parts) => normalized(parts),
    }
}

/// Whether a URI with the parts `candidate` names the gateway `gateway`: it
/// has a normal form, and that has the gateway's authority, letter for letter.
pub open spec fn names_gateway(gateway: GatewayUriView, candidate: UriPartsView) -> bool {
    match normalized(candidate) {
        Ok(c) => c.authority() == gateway.authority(),
        Err(_) => false,
    }
}

/// Whether the URI `candidate` names the gateway `gateway`: it is a URI, and
/// its parts name the gateway.
pub open spec fn text_names_gateway(gateway: GatewayUriView, candidate: Seq<char>) -> bool {
    match uri_parts(candidate) {
        Some(parts) => names_gateway(gateway, parts),
        None => false,
    }
}

/// A gateway origin in normal form: scheme, host and an explicit port.
#[derive(Clone, Debug)]
pub struct GatewayUri {
    scheme: Scheme,
    host: String,
    port: u16,
}

impl View for GatewayUri {
    type V = GatewayUriView;

    closed spec fn view(&self) -> GatewayUriView {
        GatewayUriView { scheme: self.scheme, host: self.host@, port: self.port }
    }
}

impl PartialEq for GatewayUri {
    fn eq(&self, other: &GatewayUri) -> (same: bool) {
        self.scheme == other.scheme && self.host == other.host && self.port == other.port
    }
}

impl Eq for GatewayUri {

}

impl vstd::std_specs::cmp::PartialEqSpecImpl for GatewayUri {
    open spec fn obeys_eq_spec() -> bool {
        true
    }

    open spec fn eq_spec(&self, other: &GatewayUri) -> bool {
        self@ == other@
    }
}

/// The scheme that a URI with the scheme text `scheme` is taken to have.
fn read_scheme(scheme: &Option<String>) -> (read: Option<Scheme>)
    ensures
        read == scheme_of(
            match scheme {
                Some(s) => Some(s@),
                None => None,
            },
        ),
{
    match scheme {
        None => Some(Scheme::Https),
        Some(s) => {
            if same_text(s.as_str(), "http") {
                Some(Scheme::Http)
            } else if same_text(s.as_str(), "https") {
                Some(Scheme::Https)
            } else {
                None
            }
        },
    }
}

impl GatewayUri {
    /// The gateway that a URI with the parts `origin` names.
    ///
    /// The scheme must be `http` or `https` and is `https` where the URI has
    /// none. There must be an authority. A port that the URI names is kept;
    /// where it names none, the port is 80 for `http` and 443 for `https`.
    /// A URI that cannot be a gateway is a bad request whose detail says why.
    pub fn new(origin: UriParts) -> (gateway: Result<GatewayUri, Error>)
        ensures
            match normalized(origin@) {
                Ok(g) => gateway is Ok && gateway->Ok_0@ == g,
                Err(why) => gateway is Err && gateway->Err_0@ == ErrorView::BadRequest(
                    why.detail(),
                ),
            },
    {
        let scheme = match read_scheme(&origin.scheme) {
            Some(scheme) => scheme,
            None => {
                return Err(Error::BadRequest(String::from_str("Unsupported URI scheme")));
            },
        };
        match origin.authority {
            None => Err(Error::BadRequest(String::from_str("URI must have an authority"))),
            Some(authority) => {
                let port: u16 = match authority.port {
                    Some(port) => port,
                    None => scheme.default_port(),
                };
                Ok(GatewayUri { scheme, host: authority.host, port })
            },
        }
    }

    /// The gateway that the URI `text` names: `text` is parsed, and the
    /// result goes through [`GatewayUri::new`]. A text that is no URI is a
    /// bad request, too.
    pub fn from_text(text: &str) -> (gateway: Result<GatewayUri, Error>)
        ensures
            match normalized_parsed(uri_parts(text@)) {
                Ok(g) => gateway is Ok && gateway->Ok_0@ == g,
                Err(why) => gateway is Err && gateway->Err_0@ == ErrorView::BadRequest(
                    why.detail(),
                ),
            },
    {
        match parse_uri(text) {
            None => Err(Error::BadRequest(String::from_str("Invalid URI"))),
            Some(parts) => GatewayUri::new(parts),
        }
    }

    /// The scheme by which the gateway is reached.
    pub fn scheme(&self) -> (scheme: Scheme)
        ensures
            scheme == self@.scheme,
    {
        self.scheme
    }

    /// The gateway's host.
    pub fn host(&self) -> (host: &str)
        ensures
            host@ == self@.host,
    {
        self.host.as_str()
    }

    /// The gateway's port.
    pub fn port(&self) -> (port: u16)
        ensures
            port == self@.port,
    {
        self.port
    }

    /// The authority `host:port`, which is also the address a tunnel to the
    /// gateway connects to.
    pub fn authority(&self) -> (text: String)
        ensures
            text@ == self@.authority(),
    {
        let mut text = self.host.clone();
        text.append(":");
        let port = decimal_string(self.port);
        text.append(port.as_str());
        proof {
            reveal_strlit(":");
            assert(":"@ =~= seq![':']);
        }
        text
    }

    /// The URI `scheme://host:port/` that requests are forwarded to.
    pub fn to_uri(&self) -> (text: String)
        ensures
            text@ == self@.uri(),
    {
        let mut text = String::from_str(self.scheme.as_str());
        text.append("://");
        let authority = self.authority();
        text.append(authority.as_str());
        text.append("/");
        text
    }

    /// Whether the URI with the parts `candidate` names this gateway.
    ///
    /// The candidate is put into normal form by the same rules as the
    /// gateway, and the two authorities `host:port` are compared letter for
    /// letter. A candidate that has no normal form names no gateway.
    pub fn matches(&self, candidate: &UriParts) -> (same: bool)
        ensures
            same == names_gateway(self@, candidate@),
    {
        let scheme = match read_scheme(&candidate.scheme) {
            Some(scheme) => scheme,
            None => {
                return false;
            },
        };
        match &candidate.authority {
            None => false,
            Some(authority) => {
                let port: u16 = match authority.port {
                    Some(port) => port,
                    None => scheme.default_port(),
                };
                proof {
                    lemma_authority_text_injective(
                        authority.host@,
                        port,
                        self.host@,
                        self.port,
                    );
                }
                port == self.port && same_text(authority.host.as_str(), self.host.as_str())
            },
        }
    }

    /// Whether the URI `candidate` names this gateway: `candidate` is parsed,
    /// and the result goes through [`GatewayUri::matches`]. A text that is no
    /// URI names no gateway.
    pub fn authority_matches(&self, candidate: &str) -> (same: bool)
        ensures
            same == text_names_gateway(self@, candidate@),
    {
        match parse_uri(candidate) {
            None => false,
            Some(parts) => self.matches(&parts),
        }
    }
}

/// A URI that names no port gets the port of its scheme, 443 for `https` and
/// for no scheme, 80 for `http`; a URI that names a port keeps it.
pub proof fn lemma_port_of_normal_form(parts: UriPartsView)
    requires
        normalized(parts) is Ok,
    ensures
        parts.authority is Some,
        parts.authority->0.port is Some ==> normalized(parts)->Ok_0.port
            == parts.authority->0.port->0,
        parts.authority->0.port is None && (parts.scheme is None || parts.scheme == Some("https"@))
            ==> normalized(parts)->Ok_0.port == 443,
        parts.authority->0.port is None && parts.scheme == Some("http"@) ==> normalized(
            parts,
        )->Ok_0.port == 80,
{
    reveal_strlit("http");
    reveal_strlit("https");
    assert("http"@.len() == 4);
    assert("https"@.len() == 5);
}

/// Every URI names the gateway that it is the normal form of.
pub proof fn lemma_names_own_gateway(parts: UriPartsView)
    requires
        normalized(parts) is Ok,
    ensures
        names_gateway(normalized(parts)->Ok_0, parts),
{
}

/// Every text that configures a gateway names that gateway.
pub proof fn lemma_text_names_own_gateway(text: Seq<char>)
    requires
        normalized_parsed(uri_parts(text)) is Ok,
    ensures
        text_names_gateway(normalized_parsed(uri_parts(text))->Ok_0, text),
{
}

/// A URI whose normal form differs from the gateway in its host or in its
/// port does not name it; one that agrees in both does.
pub proof fn lemma_names_gateway_by_host_and_port(gateway: GatewayUriView, candidate: UriPartsView)
    requires
        normalized(candidate) is Ok,
    ensures
        names_gateway(gateway, candidate) <==> normalized(candidate)->Ok_0.host == gateway.host
            && normalized(candidate)->Ok_0.port == gateway.port,
{
    let c = normalized(candidate)->Ok_0;
    lemma_authority_text_injective(c.host, c.port, gateway.host, gateway.port);
}

} // verus!
