//! The keepalive ping: where to send, and what.
//!
//! A ping target is written as a URL, `udp://host:port?line=payload`. This
//! module turns that text into the host, the port and the exact payload of
//! each datagram. Resolving the address and sending stay with the caller.

use vstd::prelude::*;
use vstd::string::*;

verus! {

/// The components of a parsed URL that the keepalive reads.
#[derive(Debug, PartialEq, Eq)]
pub struct UrlParts {
    /// The scheme, without the `:`.
    pub scheme: String,
    /// The host as it is written in the URL, if the URL has one.
    pub host: Option<String>,
    /// The port, if the URL names one.
    pub port: Option<u16>,
    /// The decoded key and value of each pair of the query string, in order.
    pub query: Vec<(String, String)>,
}

/// The mathematical content of a [`UrlParts`].
pub struct UrlPartsView {
    pub scheme: Seq<char>,
    pub host: Option<Seq<char>>,
    pub port: Option<u16>,
    pub query: Seq<(Seq<char>, Seq<char>)>,
}

impl View for UrlParts {
    type V = UrlPartsView;

    open spec fn view(&self) -> UrlPartsView {
        UrlPartsView {
            scheme: self.scheme@,
            host: self.host.deep_view(),
            port: self.port,
            query: self.query.deep_view(),
        }
    }
}

/// Why a ping target was rejected.
#[derive(Clone, Copy, Debug, PartialEq, Eq, Structural)]
pub enum PingError {
    /// The text is not an absolute URL.
    InvalidUrl,
    /// The scheme is not `udp`.
    UnsupportedScheme,
    /// The URL has no host.
    MissingHost,
    /// The URL names no port.
    MissingPort,
}

impl PingError {
    /// The message of the error.
    pub open spec fn message_of(self) -> Seq<char> {
        match self {
            PingError::InvalidUrl => "invalid ping url"@,
            PingError::UnsupportedScheme => "only support udp ping"@,
            PingError::MissingHost => "expect ping host"@,
            PingError::MissingPort => "expect ping port"@,
        }
    }

    /// The message of the error, as text.
    pub fn message(&self) -> (text: String)
        ensures
            text@ == self.message_of(),
    {
        match self {
            PingError::InvalidUrl => String::from_str("invalid ping url"),
            PingError::UnsupportedScheme => String::from_str("only support udp ping"),
            PingError::MissingHost => String::from_str("expect ping host"),
            PingError::MissingPort => String::from_str("expect ping port"),
        }
    }
}

/// Where the keepalive sends, and the datagram it sends.
#[derive(Debug, PartialEq, Eq)]
pub struct PingTarget {
    /// The host as it is written in the URL.
    pub host: String,
    /// The port.
    pub port: u16,
    /// The text of each datagram, line ending included.
    pub payload: String,
}

/// The mathematical content of a [`PingTarget`].
pub struct PingTargetView {
    pub host: Seq<char>,
    pub port: u16,
    pub payload: Seq<char>,
}

impl View for PingTarget {
    type V = PingTargetView;

    open spec fn view(&self) -> PingTargetView {
        PingTargetView { host: self.host@, port: self.port, payload: self.payload@ }
    }
}

/// The only scheme a ping target may have.
pub open spec fn udp_scheme() -> Seq<char> {
    "udp"@
}

/// The query key that carries the payload.
pub open spec fn line_key() -> Seq<char> {
    "line"@
}

/// The payload line that is sent when the URL names none.
pub open spec fn default_line() -> Seq<char> {
    "hello ddns"@
}

/// The line ending appended to every payload: carriage return, line feed.
pub open spec fn line_ending() -> Seq<char> {
    "\r\n"@
}

/// The value of the first pair at or after `from` whose key is `key`.
pub open spec fn first_value_from(
    pairs: Seq<(Seq<char>, Seq<char>)>,
    key: Seq<char>,
    from: int,
) -> Option<Seq<char>>
    decreases pairs.len() - from,
{
    if from < 0 || from >= pairs.len() {
        None
    } else if pairs[from].0 == key {
        Some(pairs[from].1)
    } else {
        first_value_from(pairs, key, from + 1)
    }
}

/// The payload line of a query: the value of its first `line` pair, or the
/// default line when it has none.
pub open spec fn payload_line(query: Seq<(Seq<char>, Seq<char>)>) -> Seq<char> {
    match first_value_from(query, line_key(), 0) {
        Some(line) => line,
        None => default_line(),
    }
}

/// What the parts of a URL give as a ping target.
///
/// The checks come in this order: scheme, host, port. The payload is the
/// payload line followed by the line ending.
pub open spec fn ping_target_of(parts: UrlPartsView) -> Result<PingTargetView, PingError> {
    if parts.scheme != udp_scheme() {
        Err(PingError::UnsupportedScheme)
    } else if parts.host is None {
        Err(PingError::MissingHost)
    } else if parts.port is None {
        Err(PingError::MissingPort)
    } else {
        Ok(
            PingTargetView {
                host: parts.host->0,
                port: parts.port->0,
                payload: payload_line(parts.query) + line_ending(),
            },
        )
    }
}

/// The view of a result that holds a ping target.
pub open spec fn target_result_view(r: Result<PingTarget, PingError>) -> Result<
    PingTargetView,
    PingError,
> {
    match r {
        Ok(t) => Ok(t@),
        Err(e) => Err(e),
    }
}

/// The payload line of `query`, owned.
fn find_line(query: &Vec<(String, String)>) -> (line: String)
    ensures
        line@ == payload_line(query.deep_view()),
{
    let key = String::from_str("line");
    let mut i: usize = 0;
    while i < query.len()
        invariant
            i <= query.len(),
            key@ == line_key(),
            first_value_from(query.deep_view(), line_key(), 0) == first_value_from(
                query.deep_view(),
                line_key(),
                i as int,
            ),
        decreases query.len() - i,
    {
        if query[i].0 == key {
            return query[i].1.clone();
        }
        i = i + 1;
    }
    String::from_str("hello ddns")
}

/// Builds the ping target from the parts of a URL.
pub fn ping_target(parts: &UrlParts) -> (r: Result<PingTarget, PingError>)
    ensures
        target_result_view(r) == ping_target_of(parts@),
{
    let udp = String::from_str("udp");
    if parts.scheme != udp {
        return Err(PingError::UnsupportedScheme);
    }
    let host = match &parts.host {
        Some(h) => h.clone(),
        None => {
            return Err(PingError::MissingHost);
        },
    };
    let port = match parts.port {
        Some(p) => p,
        None => {
            return Err(PingError::MissingPort);
        },
    };
    let mut payload = find_line(&parts.query);
    payload.append("\r\n");
    Ok(PingTarget { host, port, payload })
}

/// The components of `text` read as an absolute URL, or `None` where `text`
/// is not one.
pub uninterp spec fn url_parts(text: Seq<char>) -> Option<UrlPartsView>;

/// The error of the URL parser, carried as it is.
#[verifier::external_type_specification]
#[verifier::external_body]
pub struct ExParseError(url::ParseError);

/// Parses `text` with `reqwest::Url::parse` and copies out what the parsed URL
/// gives for `scheme`, `host_str`, `port` and `query_pairs`.
///
/// Trusted: the parser is a function of the text alone, so its outcome has a
/// name, [`url_parts`]. Nothing is claimed of what that name holds.
#[verifier::external_body]
fn parse_url(text: &str) -> (r: Result<UrlParts, url::ParseError>)
    ensures
        r is Ok <==> url_parts(text@) is Some,
        r matches Ok(parts) ==> url_parts(text@) == Some(parts@),
{
    let url = reqwest::Url::parse(text)?;
    Ok(UrlParts {
        scheme: url.scheme().to_string(),
        host: url.host_str().map(|h| h.to_string()),
        port: url.port(),
        query: url.query_pairs().map(|(k, v)| (k.into_owned(), v.into_owned())).collect(),
    })
}

/// What a parsed, or unparsable, URL gives as a ping target.
pub open spec fn kick_ping_of(parsed: Option<UrlPartsView>) -> Result<PingTargetView, PingError> {
    match parsed {
        Some(parts) => ping_target_of(parts),
        None => Err(PingError::InvalidUrl),
    }
}

/// Reads a ping target written as a URL.
///
/// Fails with [`PingError::InvalidUrl`] where `ping` is no absolute URL, and
/// otherwise as [`ping_target`] does on its parts.
pub fn kick_ping(ping: &str) -> (r: Result<PingTarget, PingError>)
    ensures
        target_result_view(r) == kick_ping_of(url_parts(ping@)),
{
    match parse_url(ping) {
        Ok(parts) => ping_target(&parts),
        Err(_) => Err(PingError::InvalidUrl),
    }
}

/// A URL with any scheme but `udp` gives no ping target, whatever else it
/// holds.
pub proof fn other_scheme_is_rejected(parts: UrlPartsView)
    requires
        parts.scheme != udp_scheme(),
    ensures
        kick_ping_of(Some(parts)) == Err::<PingTargetView, _>(PingError::UnsupportedScheme),
{
}

/// The payload line is the value of the first `line` pair of the query.
pub proof fn payload_line_is_the_first_line(query: Seq<(Seq<char>, Seq<char>)>, i: int)
    requires
        0 <= i < query.len(),
        query[i].0 == line_key(),
        forall|j: int| 0 <= j < i ==> (#[trigger] query[j]).0 != line_key(),
    ensures
        payload_line(query) == query[i].1,
{
    first_value_skips(query, line_key(), 0, i);
}

/// The payload line is the default one where the query has no `line` pair.
pub proof fn payload_line_defaults(query: Seq<(Seq<char>, Seq<char>)>)
    requires
        forall|j: int| 0 <= j < query.len() ==> (#[trigger] query[j]).0 != line_key(),
    ensures
        payload_line(query) == default_line(),
{
    first_value_skips(query, line_key(), 0, query.len() as int);
}

/// Pairs with another key are passed over.
proof fn first_value_skips(
    pairs: Seq<(Seq<char>, Seq<char>)>,
    key: Seq<char>,
    from: int,
    to: int,
)
    requires
        0 <= from <= to <= pairs.len(),
        forall|j: int| from <= j < to ==> (#[trigger] pairs[j]).0 != key,
    ensures
        first_value_from(pairs, key, from) == first_value_from(pairs, key, to),
    decreases to - from,
{
    if from < to {
        first_value_skips(pairs, key, from + 1, to);
    }
}

} // verus!
