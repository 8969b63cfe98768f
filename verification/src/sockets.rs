//! Where a listener URL says to listen: the scheme decides between a Unix
//! domain socket and a TCP address, the latter with defaults for host and
//! port.
use vstd::prelude::*;
use crate::text::{decimal, push_decimal};

verus! {

#[verifier::external_type_specification]
#[verifier::external_body]
pub struct ExUrlParseError(url::ParseError);

#[verifier::external_type_specification]
#[verifier::external_body]
pub struct ExIoError(std::io::Error);

/// Why a listener could not be opened.
#[derive(Debug)]
pub enum ListenerError {
    /// The URL's scheme is neither `unix` nor `tcp`; it holds the scheme.
    InvalidScheme(String),
    /// The listener URL does not parse.
    UrlParseError(url::ParseError),
    /// Binding or address resolution failed.
    IoError(std::io::Error),
}

impl From<url::ParseError> for ListenerError {
    fn from(err: url::ParseError) -> (r: Self) {
        ListenerError::UrlParseError(err)
    }
}

impl vstd::std_specs::convert::FromSpecImpl<url::ParseError> for ListenerError {
    open spec fn obeys_from_spec() -> bool {
        true
    }

    open spec fn from_spec(err: url::ParseError) -> Self {
        ListenerError::UrlParseError(err)
    }
}

impl From<std::io::Error> for ListenerError {
    fn from(err: std::io::Error) -> (r: Self) {
        ListenerError::IoError(err)
    }
}

impl vstd::std_specs::convert::FromSpecImpl<std::io::Error> for ListenerError {
    open spec fn obeys_from_spec() -> bool {
        true
    }

    open spec fn from_spec(err: std::io::Error) -> Self {
        ListenerError::IoError(err)
    }
}

/// The parts of a parsed URL that decide where to listen.
#[derive(Debug)]
pub struct UrlParts {
    /// The scheme, such as `tcp` or `unix`.
    pub scheme: String,
    /// The path.
    pub path: String,
    /// The host, as text, when the URL has one.
    pub host: Option<String>,
    /// The port, when the URL states one that is not the scheme's default.
    pub port: Option<u16>,
}

/// The view of [`UrlParts`].
pub struct UrlPartsView {
    pub scheme: Seq<char>,
    pub path: Seq<char>,
    pub host: Option<Seq<char>>,
    pub port: Option<u16>,
}

impl View for UrlParts {
    type V = UrlPartsView;

    open spec fn view(&self) -> UrlPartsView {
        UrlPartsView {
            scheme: self.scheme@,
            path: self.path@,
            host: match self.host {
                Some(h) => Some(h@),
                None => None,
            },
            port: self.port,
        }
    }
}

/// The scheme, path, host text and explicit port that `url::Url::parse`
/// finds in a URL, or `None` when it rejects the text.
pub uninterp spec fn parsed_url(text: Seq<char>) -> Option<UrlPartsView>;

/// Calls `url::Url::parse` on `text` and, on success, reads the result's
/// `scheme`, `path`, `host_str` and `port`. Claimed: the outcome is
/// `parsed_url` of the text; which texts parse, and into what, is left to
/// the `url` crate.
#[verifier::external_body]
pub(crate) fn parse_url(text: &str) -> (r: Result<UrlParts, url::ParseError>)
    ensures
        match r {
            Ok(p) => parsed_url(text@) == Some(p@),
            Err(_) => parsed_url(text@) is None,
        },
{
    let u = url::Url::parse(text)?;
    Ok(UrlParts {
        scheme: u.scheme().to_string(),
        path: u.path().to_string(),
        host: match u.host_str() {
            Some(h) => Some(h.to_string()),
            None => None,
        },
        port: u.port(),
    })
}

/// Where to listen.
#[derive(Debug, PartialEq, Eq)]
pub enum ListenTarget {
    /// A Unix domain socket at this path.
    Unix(String),
    /// A TCP socket at this `host:port` address, still to be resolved.
    Tcp(String),
}

/// The view of a [`ListenTarget`].
pub enum ListenTargetView {
    Unix(Seq<char>),
    Tcp(Seq<char>),
}

impl View for ListenTarget {
    type V = ListenTargetView;

    open spec fn view(&self) -> ListenTargetView {
        match self {
            ListenTarget::Unix(p) => ListenTargetView::Unix(p@),
            ListenTarget::Tcp(a) => ListenTargetView::Tcp(a@),
        }
    }
}

/// The TCP address for a host and port, `0.0.0.0` and `80` standing in for
/// those the URL leaves out.
pub open spec fn tcp_address(host: Option<Seq<char>>, port: Option<u16>) -> Seq<char> {
    let h = match host {
        Some(h) => h,
        None => "0.0.0.0"@,
    };
    let p: u16 = match port {
        Some(p) => p,
        None => 80,
    };
    h + ":"@ + decimal(p as nat)
}

/// Where URL parts say to listen: `unix` names a socket path, `tcp` a TCP
/// address; any other scheme is refused, and `Err` holds it.
pub open spec fn listen_target_of(parts: UrlPartsView) -> Result<ListenTargetView, Seq<char>> {
    if parts.scheme == "unix"@ {
        Ok(ListenTargetView::Unix(parts.path))
    } else if parts.scheme == "tcp"@ {
        Ok(ListenTargetView::Tcp(tcp_address(parts.host, parts.port)))
    } else {
        Err(parts.scheme)
    }
}

/// Whether a listen outcome is the one `listen_target_of` gives for `parts`.
pub open spec fn listen_outcome_matches(
    r: Result<ListenTarget, ListenerError>,
    parts: UrlPartsView,
) -> bool {
    match listen_target_of(parts) {
        Ok(t) => r matches Ok(x) && x@ == t,
        Err(scheme) => r matches Err(ListenerError::InvalidScheme(s)) && s@ == scheme,
    }
}

impl ListenTarget {
    /// Where the parts of a listener URL say to listen.
    pub fn from_url(url: &UrlParts) -> (r: Result<ListenTarget, ListenerError>)
        ensures
            listen_outcome_matches(r, url@),
    {
        let scheme = crate::text::chars_of(url.scheme.as_str());
        if crate::text::chars_equal_str(&scheme, "unix") {
            Ok(ListenTarget::Unix(url.path.clone()))
        } else if crate::text::chars_equal_str(&scheme, "tcp") {
            let mut addr = String::new();
            match &url.host {
                Some(h) => addr.append(h.as_str()),
                None => addr.append("0.0.0.0"),
            }
            addr.append(":");
            let port: u16 = match url.port {
                Some(p) => p,
                None => 80,
            };
            push_decimal(&mut addr, port as usize);
            assert(addr@ =~= tcp_address(url@.host, url@.port));
            Ok(ListenTarget::Tcp(addr))
        } else {
            Err(ListenerError::InvalidScheme(url.scheme.clone()))
        }
    }
}

/// A `unix` URL listens on its path; a `tcp` URL on its host (`0.0.0.0`
/// when absent) and port (`80` when absent), written `host:port`; any other
/// scheme is refused with that scheme.
pub proof fn lemma_listen_target_by_scheme(parts: UrlPartsView)
    ensures
        parts.scheme == "unix"@ ==> listen_target_of(parts) == Ok::<ListenTargetView, Seq<char>>(ListenTargetView::Unix(parts.path)),
        parts.scheme == "tcp"@ && parts.host is Some && parts.port is Some ==> listen_target_of(parts)
            == Ok::<ListenTargetView, Seq<char>>(ListenTargetView::Tcp(parts.host->0 + ":"@ + decimal(parts.port->0 as nat))),
        parts.scheme == "tcp"@ && parts.host is None && parts.port is Some ==> listen_target_of(parts)
            == Ok::<ListenTargetView, Seq<char>>(ListenTargetView::Tcp("0.0.0.0"@ + ":"@ + decimal(parts.port->0 as nat))),
        parts.scheme == "tcp"@ && parts.host is Some && parts.port is None ==> listen_target_of(parts)
            == Ok::<ListenTargetView, Seq<char>>(ListenTargetView::Tcp(parts.host->0 + ":"@ + decimal(80))),
        parts.scheme == "tcp"@ && parts.host is None && parts.port is None ==> listen_target_of(parts)
            == Ok::<ListenTargetView, Seq<char>>(ListenTargetView::Tcp("0.0.0.0"@ + ":"@ + decimal(80))),
        parts.scheme != "unix"@ && parts.scheme != "tcp"@ ==> listen_target_of(parts) == Err::<ListenTargetView, Seq<char>>(parts.scheme),
{
    reveal_strlit("unix");
    reveal_strlit("tcp");
    assert("unix"@[0] != "tcp"@[0]);
}

} // verus!
