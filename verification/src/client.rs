//! The decisions of a stream client: its connection status, its statistics, when to
//! reconnect, and how a server address becomes an endpoint.
use crate::clock::instant_now;
use crate::text::{decimal, decimal_string, has_prefix, owned, starts_with, str_eq};
use std::time::{Duration, Instant};
use vstd::prelude::*;
use vstd::string::{StrSliceExecFns, StringExecFns};

verus! {

/// Client connection status.
#[derive(Debug, Clone, PartialEq)]
pub enum ConnectionStatus {
    Disconnected,
    Connecting,
    Connected,
    Authenticated,
    Streaming,
    Reconnecting,
    Error(String),
}

/// A connection status as the contracts see it.
pub enum StatusKind {
    Disconnected,
    Connecting,
    Connected,
    Authenticated,
    Streaming,
    Reconnecting,
    Error(Seq<char>),
}

impl View for ConnectionStatus {
    type V = StatusKind;

    open spec fn view(&self) -> StatusKind {
        match self {
            ConnectionStatus::Disconnected => StatusKind::Disconnected,
            ConnectionStatus::Connecting => StatusKind::Connecting,
            ConnectionStatus::Connected => StatusKind::Connected,
            ConnectionStatus::Authenticated => StatusKind::Authenticated,
            ConnectionStatus::Streaming => StatusKind::Streaming,
            ConnectionStatus::Reconnecting => StatusKind::Reconnecting,
            ConnectionStatus::Error(m) => StatusKind::Error(m@),
        }
    }
}

impl ConnectionStatus {
    /// Whether the two statuses are the same status.
    pub fn same_as(&self, other: &ConnectionStatus) -> (r: bool)
        ensures
            r == (self@ == other@),
    {
        match (self, other) {
            (ConnectionStatus::Disconnected, ConnectionStatus::Disconnected) => true,
            (ConnectionStatus::Connecting, ConnectionStatus::Connecting) => true,
            (ConnectionStatus::Connected, ConnectionStatus::Connected) => true,
            (ConnectionStatus::Authenticated, ConnectionStatus::Authenticated) => true,
            (ConnectionStatus::Streaming, ConnectionStatus::Streaming) => true,
            (ConnectionStatus::Reconnecting, ConnectionStatus::Reconnecting) => true,
            (ConnectionStatus::Error(a), ConnectionStatus::Error(b)) => str_eq(a.as_str(), b.as_str()),
            _ => false,
        }
    }

    /// A copy of this status.
    pub fn duplicate(&self) -> (r: ConnectionStatus)
        ensures
            r@ == self@,
    {
        match self {
            ConnectionStatus::Disconnected => ConnectionStatus::Disconnected,
            ConnectionStatus::Connecting => ConnectionStatus::Connecting,
            ConnectionStatus::Connected => ConnectionStatus::Connected,
            ConnectionStatus::Authenticated => ConnectionStatus::Authenticated,
            ConnectionStatus::Streaming => ConnectionStatus::Streaming,
            ConnectionStatus::Reconnecting => ConnectionStatus::Reconnecting,
            ConnectionStatus::Error(m) => ConnectionStatus::Error(m.clone()),
        }
    }
}

// ---------------------------------------------------------------------------------------
// Endpoint addresses

/// `url::Url`'s host and port (the scheme's default port where none is written).
#[derive(Debug)]
pub struct UrlAuthority {
    pub host: Option<String>,
    pub port: Option<u16>,
}

/// What `url::Url::parse` makes of `input`: on success the URL's host (`host_str`) and port
/// (`port_or_known_default`); on failure the text of its error.
pub uninterp spec fn url_authority(input: Seq<char>) -> Result<(Option<Seq<char>>, Option<u16>), Seq<char>>;

/// An authority as the contracts see it.
pub open spec fn authority_view(a: UrlAuthority) -> (Option<Seq<char>>, Option<u16>) {
    (
        match a.host {
            Some(h) => Some(h@),
            None => None,
        },
        a.port,
    )
}

/// A successful parse with the given authority.
pub open spec fn parsed_ok(a: (Option<Seq<char>>, Option<u16>)) -> Result<(Option<Seq<char>>, Option<u16>), Seq<char>> {
    Ok(a)
}

/// A failed parse with the given message.
pub open spec fn parsed_err(m: Seq<char>) -> Result<(Option<Seq<char>>, Option<u16>), Seq<char>> {
    Err(m)
}

/// Calls `url::Url::parse` and reads the host (`Url::host_str`) and the port
/// (`Url::port_or_known_default`) of the result; on failure, the error's text.
#[verifier::external_body]
fn parse_url_authority(input: &str) -> (r: Result<UrlAuthority, String>)
    ensures
        r matches Ok(a) ==> url_authority(input@) == parsed_ok(authority_view(a)),
        r matches Err(e) ==> url_authority(input@) == parsed_err(e@),
{
    match url::Url::parse(input) {
        Ok(url) => Ok(UrlAuthority {
            host: url.host_str().map(|h| h.to_string()),
            port: url.port_or_known_default(),
        }),
        Err(e) => Err(e.to_string()),
    }
}

/// Why an address did not give an endpoint.
#[derive(Debug)]
pub enum EndpointError {
    /// The URL did not parse; the parser's message.
    InvalidUrl(String),
    MissingHost,
    MissingPort,
}

/// An endpoint error as the contracts see it.
pub enum EndpointErrorKind {
    InvalidUrl(Seq<char>),
    MissingHost,
    MissingPort,
}

impl View for EndpointError {
    type V = EndpointErrorKind;

    open spec fn view(&self) -> EndpointErrorKind {
        match self {
            EndpointError::InvalidUrl(m) => EndpointErrorKind::InvalidUrl(m@),
            EndpointError::MissingHost => EndpointErrorKind::MissingHost,
            EndpointError::MissingPort => EndpointErrorKind::MissingPort,
        }
    }
}

impl EndpointError {
    /// The text that describes the error.
    pub fn message(&self) -> (r: String)
        ensures
            r@ == match self@ {
                EndpointErrorKind::InvalidUrl(m) => "Invalid URL format: "@ + m,
                EndpointErrorKind::MissingHost => "URL missing host"@,
                EndpointErrorKind::MissingPort => "URL missing port and no default available"@,
            },
    {
        match self {
            EndpointError::InvalidUrl(m) => {
                let mut s = String::from_str("Invalid URL format: ");
                s.append(m.as_str());
                s
            },
            EndpointError::MissingHost => String::from_str("URL missing host"),
            EndpointError::MissingPort => String::from_str(
                "URL missing port and no default available",
            ),
        }
    }
}

/// The endpoint `host:port` that a parsed URL gives, or why it gives none.
pub open spec fn endpoint_of(parsed: Result<(Option<Seq<char>>, Option<u16>), Seq<char>>) -> Result<
    Seq<char>,
    EndpointErrorKind,
> {
    match parsed {
        Err(m) => Err(EndpointErrorKind::InvalidUrl(m)),
        Ok((None, _)) => Err(EndpointErrorKind::MissingHost),
        Ok((Some(_), None)) => Err(EndpointErrorKind::MissingPort),
        Ok((Some(host), Some(port))) => Ok(host + ":"@ + decimal(port as nat)),
    }
}

/// A result as the contracts see it.
pub open spec fn endpoint_view(r: Result<String, EndpointError>) -> Result<Seq<char>, EndpointErrorKind> {
    match r {
        Ok(s) => Ok(s@),
        Err(e) => Err(e@),
    }
}

/// The endpoint `host:port` of a parsed URL.
pub fn endpoint_from_url(parsed: Result<UrlAuthority, String>) -> (r: Result<String, EndpointError>)
    ensures
        endpoint_view(r) == endpoint_of(match parsed {
            Ok(a) => Ok(authority_view(a)),
            Err(e) => Err(e@),
        }),
{
    match parsed {
        Err(e) => Err(EndpointError::InvalidUrl(e)),
        Ok(authority) => match authority.host {
            None => Err(EndpointError::MissingHost),
            Some(host) => match authority.port {
                None => Err(EndpointError::MissingPort),
                Some(port) => {
                    let mut s = host;
                    s.append(":");
                    let digits = decimal_string(port as u64);
                    s.append(digits.as_str());
                    Ok(s)
                },
            },
        },
    }
}

/// Whether `address` is written as an `http://` or `https://` URL.
pub open spec fn is_url(address: Seq<char>) -> bool {
    has_prefix(address, "http://"@) || has_prefix(address, "https://"@)
}

/// The endpoint of `address`: the address itself unless it is an `http://` or
/// `https://` URL, whose host and port (the scheme's default where none is written) are
/// joined as `host:port`.
pub fn parse_endpoint_address(address: &str) -> (r: Result<String, EndpointError>)
    ensures
        !is_url(address@) ==> endpoint_view(r) == Ok::<_, EndpointErrorKind>(address@),
        is_url(address@) ==> endpoint_view(r) == endpoint_of(url_authority(address@)),
{
    if !starts_with(address, "http://") && !starts_with(address, "https://") {
        return Ok(owned(address));
    }
    endpoint_from_url(parse_url_authority(address))
}

/// The part of `address` before its first `:`, or all of it.
pub open spec fn host_part(address: Seq<char>) -> Seq<char> {
    if exists|i: int| 0 <= i < address.len() && address[i] == ':' {
        address.take(choose|i: int| 0 <= i < address.len() && address[i] == ':' && forall|j: int|
            0 <= j < i ==> address[j] != ':')
    } else {
        address
    }
}

/// The part of `address` before its first `:`, or all of it.
pub fn host_of(address: &str) -> (r: String)
    ensures
        r@ == host_part(address@),
{
    let n = address.unicode_len();
    let mut i: usize = 0;
    while i < n
        invariant
            n == address@.len(),
            i <= n,
            forall|j: int| 0 <= j < i ==> address@[j] != ':',
        decreases n - i,
    {
        if address.get_char(i) == ':' {
            let ghost k = choose|k: int| 0 <= k < address@.len() && address@[k] == ':' && forall|j: int|
                0 <= j < k ==> address@[j] != ':';
            proof {
                assert(0 <= i < address@.len() && address@[i as int] == ':' && forall|j: int|
                    0 <= j < i ==> address@[j] != ':');
                if k < i {
                } else if k > i {
                    assert(address@[i as int] != ':');
                }
                assert(k == i);
            }
            let r = owned(address.substring_char(0, i));
            assert(r@ =~= address@.take(i as int));
            return r;
        }
        i = i + 1;
    }
    owned(address)
}

/// The server name to use for `address`: its host part, unless that is `127.0.0.1` or
/// `localhost`, in which case `current` is kept.
pub open spec fn server_name_for(address: Seq<char>, current: Seq<char>) -> Seq<char> {
    let host = host_part(address);
    if host != "127.0.0.1"@ && host != "localhost"@ {
        host
    } else {
        current
    }
}

/// The server name to use for `address`, given the one in force.
pub fn server_name_from_address(address: &str, current: String) -> (r: String)
    ensures
        r@ == server_name_for(address@, current@),
{
    let host = host_of(address);
    if !str_eq(host.as_str(), "127.0.0.1") && !str_eq(host.as_str(), "localhost") {
        host
    } else {
        current
    }
}

} // verus!
