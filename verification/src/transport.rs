//! The request that carries a release, and the proxy that it may go through.
//! Sending is not the library's part: it says what is to be sent, and where.

use vstd::prelude::*;
use crate::auth::{basic_authorization, AuthHeader};
use crate::endpoint::ResolvedEndpoint;
use crate::text::chars_of;

verus! {

/// The error of `url::Url::parse`, carried through unread.
#[verifier::external_type_specification]
#[verifier::external_body]
pub struct ExUrlParseError(url::ParseError);

/// What the library reads of a parsed URL.
#[derive(Debug, PartialEq, Eq)]
pub struct UrlParts {
    /// The scheme, in lower case and without its colon.
    pub scheme: String,
    /// The host, where the URL has one.
    pub host: Option<String>,
    /// The port, where the URL shows one that is not its scheme's own.
    pub port: Option<u16>,
    /// The port, or else the one that its scheme has of its own.
    pub port_or_own: Option<u16>,
}

impl UrlParts {
    /// Scheme, host and the two ports as plain values.
    pub open spec fn parts(self) -> (Seq<char>, Option<Seq<char>>, Option<u16>, Option<u16>) {
        (self.scheme@, self.host.deep_view(), self.port, self.port_or_own)
    }
}

/// The parts of a URL that may be absent.
pub open spec fn parts_view(found: Option<UrlParts>) -> Option<
    (Seq<char>, Option<Seq<char>>, Option<u16>, Option<u16>),
> {
    match found {
        Some(parts) => Some(parts.parts()),
        None => None,
    }
}

/// The longest text that is read as a URL, in characters.
pub const MAX_URL_CHARS: usize = 2048;

/// The characters of a text that is read as a URL: those of ASCII but the
/// percent sign.
pub open spec fn is_plain_url_char(c: char) -> bool {
    (c as u32) < 128 && c != '%'
}

/// Whether a text is read as a URL at all: it is no longer than the limit
/// and holds plain characters only. In such a text the host is written out,
/// so no label of it is longer than the text.
pub open spec fn is_plain_url_text(text: Seq<char>) -> bool {
    text.len() <= MAX_URL_CHARS && forall|i: int|
        0 <= i < text.len() ==> is_plain_url_char(#[trigger] text[i])
}

/// What `url::Url::parse` makes of a text: `None` where the text is not an
/// absolute URL, else what `scheme`, `host_str`, `port` and
/// `port_or_known_default` return for the parsed URL.
pub uninterp spec fn url_parts(text: Seq<char>) -> Option<
    (Seq<char>, Option<Seq<char>>, Option<u16>, Option<u16>),
>;

/// Calls `url::Url::parse` and copies scheme, host and ports out of the URL
/// that it returns, or hands on its error. Only plain texts are admitted:
/// the parser encodes a host label that is not ASCII, and on a label of
/// some 3855 characters the encoder's counter overflows. A label of a plain
/// text has at most as many characters as the text.
#[verifier::external_body]
fn parse_url(text: &str) -> (r: Result<UrlParts, url::ParseError>)
    requires
        is_plain_url_text(text@),
    ensures
        match r {
            Ok(found) => url_parts(text@) == Some(found.parts()),
            Err(_) => url_parts(text@) is None,
        },
{
    match url::Url::parse(text) {
        Ok(parsed) => Ok(
            UrlParts {
                scheme: parsed.scheme().to_string(),
                host: parsed.host_str().map(|host| host.to_string()),
                port: parsed.port(),
                port_or_own: parsed.port_or_known_default(),
            },
        ),
        Err(e) => Err(e),
    }
}

/// What a text gives when it is read as a URL: nothing where it is not
/// plain, else what the parser makes of it.
pub open spec fn readable_parts(text: Seq<char>) -> Option<
    (Seq<char>, Option<Seq<char>>, Option<u16>, Option<u16>),
> {
    if is_plain_url_text(text) {
        url_parts(text)
    } else {
        None
    }
}

/// Whether `chars` make a plain text.
fn plain_url_text(chars: &Vec<char>) -> (r: bool)
    ensures
        r == is_plain_url_text(chars@),
{
    if chars.len() > MAX_URL_CHARS {
        return false;
    }
    let mut i: usize = 0;
    while i < chars.len()
        invariant
            i <= chars.len(),
            forall|k: int| 0 <= k < i ==> is_plain_url_char(#[trigger] chars@[k]),
        decreases chars.len() - i,
    {
        let c = chars[i];
        if (c as u32) >= 128 || c == '%' {
            return false;
        }
        i = i + 1;
    }
    true
}

/// Reads a text as a URL. There is none where the text is longer than 2048
/// characters, holds a character outside ASCII or a percent sign, or is not
/// an absolute URL.
pub fn read_url(text: &str) -> (r: Option<UrlParts>)
    ensures
        parts_view(r) == readable_parts(text@),
{
    let chars = chars_of(text);
    if !plain_url_text(&chars) {
        return None;
    }
    match parse_url(text) {
        Ok(found) => Some(found),
        Err(_) => None,
    }
}

/// The scheme under which a URL shows every port but 80.
pub const HTTP: &'static str = "http";

/// Where the scheme of a URL ends: at the first colon of the text, or at
/// its end where it has none.
pub open spec fn scheme_end(text: Seq<char>) -> int
    decreases text.len(),
{
    if text.len() == 0 || text[0] == ':' {
        0
    } else {
        1 + scheme_end(text.drop_first())
    }
}

/// A URL with `http` in place of its scheme.
pub open spec fn under_http(text: Seq<char>) -> Seq<char> {
    HTTP@ + text.skip(scheme_end(text))
}

/// Writes a URL with `http` in place of its scheme: `http` and what follows
/// from the first colon on.
pub fn read_under_http(text: &str) -> (r: String)
    ensures
        r@ == under_http(text@),
{
    let chars = chars_of(text);
    let mut i: usize = 0;
    proof {
        assert(chars@.skip(0) =~= chars@);
    }
    while i < chars.len() && chars[i] != ':'
        invariant
            i <= chars.len(),
            scheme_end(chars@) == i + scheme_end(chars@.skip(i as int)),
        decreases chars.len() - i,
    {
        proof {
            assert(chars@.skip(i as int).drop_first() =~= chars@.skip(i + 1));
        }
        i = i + 1;
    }
    let mut swapped = String::from_str(HTTP);
    swapped.append(text.substring_char(i, chars.len()));
    swapped
}

/// The port of a proxy whose URL gives none.
pub const DEFAULT_PROXY_PORT: u16 = 80;

/// The proxy that relays the exchange. It only relays: TLS ends at the
/// provider, not here.
#[derive(Debug, PartialEq, Eq)]
pub struct ProxyConfig {
    pub scheme: String,
    pub host: String,
    pub port: u16,
}

/// A `ProxyConfig` with its texts as sequences of characters.
pub struct ProxyConfigView {
    pub scheme: Seq<char>,
    pub host: Seq<char>,
    pub port: u16,
}

impl View for ProxyConfig {
    type V = ProxyConfigView;

    open spec fn view(&self) -> ProxyConfigView {
        ProxyConfigView { scheme: self.scheme@, host: self.host@, port: self.port }
    }
}

/// The view of a proxy that may be absent.
pub open spec fn proxy_view(proxy: Option<ProxyConfig>) -> Option<ProxyConfigView> {
    match proxy {
        Some(found) => Some(found@),
        None => None,
    }
}

/// Whether a URL may hold a port that it does not show: it shows none, and
/// its scheme has one of its own that is not 80.
pub open spec fn hides_port(
    parts: (Seq<char>, Option<Seq<char>>, Option<u16>, Option<u16>),
) -> bool {
    parts.2 is None && parts.3 is Some && parts.3 != Some(DEFAULT_PROXY_PORT)
}

/// The port that a URL gives. A URL shows a port unless it is the one of its
/// scheme; that one it gives where it shows it under `http`. A URL that
/// gives no port means port 80.
pub open spec fn given_port(
    parts: (Seq<char>, Option<Seq<char>>, Option<u16>, Option<u16>),
    again: Option<(Seq<char>, Option<Seq<char>>, Option<u16>, Option<u16>)>,
) -> u16 {
    match parts.2 {
        Some(port) => port,
        None => if hides_port(parts) && again is Some && again->Some_0.2 == parts.3 {
            parts.3->Some_0
        } else {
            DEFAULT_PROXY_PORT
        },
    }
}

/// The proxy that the parts of a URL describe, given its parts under
/// `http`: the URL must have a host, and its port is the one it gives.
pub open spec fn proxy_of_parts(
    parts: (Seq<char>, Option<Seq<char>>, Option<u16>, Option<u16>),
    again: Option<(Seq<char>, Option<Seq<char>>, Option<u16>, Option<u16>)>,
) -> Option<ProxyConfigView> {
    match parts.1 {
        Some(host) => Some(
            ProxyConfigView { scheme: parts.0, host, port: given_port(parts, again) },
        ),
        None => None,
    }
}

/// The proxy that a proxy URL describes, if it describes one. The URL is
/// read a second time, under `http`, where it may hold a port that it does
/// not show.
pub open spec fn proxy_of_url(text: Seq<char>) -> Option<ProxyConfigView> {
    match readable_parts(text) {
        Some(parts) => proxy_of_parts(
            parts,
            if hides_port(parts) {
                readable_parts(under_http(text))
            } else {
                None
            },
        ),
        None => None,
    }
}

impl UrlParts {
    /// Whether the URL may hold a port that it does not show.
    pub fn hides_port(&self) -> (r: bool)
        ensures
            r == hides_port(self.parts()),
    {
        match self.port {
            Some(_) => false,
            None => match self.port_or_own {
                Some(own) => own != DEFAULT_PROXY_PORT,
                None => false,
            },
        }
    }
}

impl ProxyConfig {
    /// The proxy that the parts of a URL describe; `again` holds the parts
    /// of the same URL under `http`, where it was read so. There is no proxy
    /// where the URL has no host. The port is the one that the URL shows;
    /// else the port of its scheme, where the URL shows that one under
    /// `http`; else 80.
    pub fn from_parts(parts: UrlParts, again: Option<UrlParts>) -> (r: Option<ProxyConfig>)
        ensures
            proxy_view(r) == proxy_of_parts(parts.parts(), parts_view(again)),
    {
        let hidden = parts.hides_port();
        let port: u16 = match parts.port {
            Some(port) => port,
            None => match (parts.port_or_own, again) {
                (Some(own), Some(second)) => match second.port {
                    Some(shown) => if hidden && shown == own {
                        own
                    } else {
                        DEFAULT_PROXY_PORT
                    },
                    None => DEFAULT_PROXY_PORT,
                },
                _ => DEFAULT_PROXY_PORT,
            },
        };
        match parts.host {
            Some(host) => Some(ProxyConfig { scheme: parts.scheme, host, port }),
            None => None,
        }
    }

    /// Reads a proxy URL. There is no proxy where the text is not read as a
    /// URL, and none where the URL has no host.
    pub fn from_url(proxy_url: &str) -> (r: Option<ProxyConfig>)
        ensures
            proxy_view(r) == proxy_of_url(proxy_url@),
    {
        match read_url(proxy_url) {
            Some(parts) => {
                let again = if parts.hides_port() {
                    let swapped = read_under_http(proxy_url);
                    read_url(swapped.as_str())
                } else {
                    None
                };
                ProxyConfig::from_parts(parts, again)
            },
            None => None,
        }
    }
}

/// The value of the `User-Agent` header of every request.
pub const USER_AGENT: &'static str = "cargo-hublish";

/// One POST, ready to be sent. It holds the credentials, and so offers no
/// way to print it.
#[derive(PartialEq, Eq)]
pub struct Request {
    /// Where to post.
    pub url: String,
    /// The value of the `User-Agent` header.
    pub user_agent: String,
    /// The value of the `Authorization` header.
    pub authorization: String,
    /// The JSON text of the release.
    pub body: String,
    /// The proxy to go through; `None` for a direct connection.
    pub proxy: Option<ProxyConfig>,
}

/// A `Request` with its texts as sequences of characters.
pub struct RequestView {
    pub url: Seq<char>,
    pub user_agent: Seq<char>,
    pub authorization: Seq<char>,
    pub body: Seq<char>,
    pub proxy: Option<ProxyConfigView>,
}

impl View for Request {
    type V = RequestView;

    open spec fn view(&self) -> RequestView {
        RequestView {
            url: self.url@,
            user_agent: self.user_agent@,
            authorization: self.authorization@,
            body: self.body@,
            proxy: proxy_view(self.proxy),
        }
    }
}

/// Assembles the request: the endpoint and the payload as given, the fixed
/// user agent, basic authorization from the credentials, and the proxy if
/// there is one.
pub fn prepare_request(
    endpoint: ResolvedEndpoint,
    payload: String,
    auth: &AuthHeader,
    proxy: Option<ProxyConfig>,
) -> (r: Request)
    ensures
        r@ == (RequestView {
            url: endpoint@,
            user_agent: USER_AGENT@,
            authorization: basic_authorization(auth@),
            body: payload@,
            proxy: proxy_view(proxy),
        }),
{
    Request {
        url: endpoint.api_url,
        user_agent: String::from_str(USER_AGENT),
        authorization: auth.header_value(),
        body: payload,
        proxy,
    }
}

} // verus!
