//! The decisions of the authorization server: where it listens, how its
//! observability endpoint answers, and how a check request is decided.
use vstd::prelude::*;
use vstd::utf8::{decode_utf8, valid_utf8};
use crate::text::{
    chars_equal_str, chars_of, decimal, decode_utf8_lossy, first_line, first_line_of,
    lossy_utf8, push_decimal, utf8_len, utf8_len_of, views, words, words_of,
};

verus! {

/// Where the authorization server listens, as text: a TCP socket address
/// still to be parsed, or the path of a Unix domain socket.
#[derive(Debug, PartialEq, Eq)]
pub enum ListenAddress {
    /// A TCP socket address such as `127.0.0.1:8080`.
    Tcp(String),
    /// A Unix domain socket path.
    Unix(String),
}

/// The view of a [`ListenAddress`].
pub enum ListenAddressView {
    Tcp(Seq<char>),
    Unix(Seq<char>),
}

impl View for ListenAddress {
    type V = ListenAddressView;

    open spec fn view(&self) -> ListenAddressView {
        match self {
            ListenAddress::Tcp(a) => ListenAddressView::Tcp(a@),
            ListenAddress::Unix(p) => ListenAddressView::Unix(p@),
        }
    }
}

/// Whether `s` begins with `prefix`.
pub open spec fn has_prefix(s: Seq<char>, prefix: Seq<char>) -> bool {
    prefix.len() <= s.len() && s.take(prefix.len() as int) == prefix
}

/// The listen address a URL names: `tcp://ADDR` a TCP address, `unix://PATH`
/// a socket path, and anything else a TCP address as it stands.
pub open spec fn listen_address_of(url: Seq<char>) -> ListenAddressView {
    if has_prefix(url, "tcp://"@) {
        ListenAddressView::Tcp(url.skip(6))
    } else if has_prefix(url, "unix://"@) {
        ListenAddressView::Unix(url.skip(7))
    } else {
        ListenAddressView::Tcp(url)
    }
}

/// The text of `s` from character `start` on.
fn chars_from(s: &Vec<char>, start: usize) -> (r: String)
    requires
        start <= s.len(),
    ensures
        r@ == s@.skip(start as int),
{
    let mut r = String::new();
    let mut i = start;
    while i < s.len()
        invariant
            start <= i <= s.len(),
            r@ == s@.subrange(start as int, i as int),
        decreases s.len() - i,
    {
        crate::text::push_char(&mut r, s[i]);
        i = i + 1;
        assert(r@ =~= s@.subrange(start as int, i as int));
    }
    assert(r@ =~= s@.skip(start as int));
    r
}

/// Whether `s` begins with the text `prefix`.
fn starts_with(s: &Vec<char>, prefix: &str) -> (r: bool)
    ensures
        r == has_prefix(s@, prefix@),
{
    let p = chars_of(prefix);
    if p.len() > s.len() {
        return false;
    }
    let mut head: Vec<char> = Vec::new();
    let mut i: usize = 0;
    while i < p.len()
        invariant
            p.len() <= s.len(),
            i <= p.len(),
            head@ == s@.take(i as int),
        decreases p.len() - i,
    {
        head.push(s[i]);
        i = i + 1;
        assert(head@ =~= s@.take(i as int));
    }
    crate::text::same_chars(&head, &p)
}

impl ListenAddress {
    /// Reads a listen URL: `tcp://host:port`, `unix://path`, or a bare
    /// `host:port`, which is taken as TCP.
    pub fn from_url(url_str: &str) -> (r: ListenAddress)
        ensures
            r@ == listen_address_of(url_str@),
    {
        let s = chars_of(url_str);
        proof {
            reveal_strlit("tcp://");
            reveal_strlit("unix://");
        }
        if starts_with(&s, "tcp://") {
            ListenAddress::Tcp(chars_from(&s, 6))
        } else if starts_with(&s, "unix://") {
            ListenAddress::Unix(chars_from(&s, 7))
        } else {
            assert(s@.skip(0) =~= s@);
            ListenAddress::Tcp(chars_from(&s, 0))
        }
    }
}

/// The address the metrics listener binds: all interfaces, on `port`.
pub open spec fn metrics_bind_address_of(port: u16) -> Seq<char> {
    "0.0.0.0:"@ + decimal(port as nat)
}

/// The address the metrics listener binds.
pub fn metrics_bind_address(port: u16) -> (r: String)
    ensures
        r@ == metrics_bind_address_of(port),
{
    let mut r = String::new();
    r.append("0.0.0.0:");
    push_decimal(&mut r, port as usize);
    r
}

/// What the metrics endpoint serves for a request.
#[derive(Debug, Clone, Copy, PartialEq, Eq, Structural)]
pub enum MetricsEndpoint {
    /// `GET /health`.
    Health,
    /// `GET /metrics`.
    Metrics,
    /// A well-formed request line for anything else.
    NotFound,
    /// A request line with fewer than two words.
    BadRequest,
}

/// The endpoint asked for by the words of a request line.
pub open spec fn metrics_endpoint_of_words(ws: Seq<Seq<char>>) -> MetricsEndpoint {
    if ws.len() >= 2 {
        if ws[0] == "GET"@ && ws[1] == "/health"@ {
            MetricsEndpoint::Health
        } else if ws[0] == "GET"@ && ws[1] == "/metrics"@ {
            MetricsEndpoint::Metrics
        } else {
            MetricsEndpoint::NotFound
        }
    } else {
        MetricsEndpoint::BadRequest
    }
}

/// The endpoint asked for by the raw bytes of a request, read as UTF-8 with
/// invalid sequences replaced: decided by the words of its first line.
pub open spec fn metrics_endpoint_of(request: Seq<u8>) -> MetricsEndpoint {
    metrics_endpoint_of_words(words(first_line(lossy_utf8(request))))
}

/// The endpoint asked for by a request text, decided by the words of its
/// first line.
pub fn metrics_endpoint_of_text(text: &str) -> (r: MetricsEndpoint)
    ensures
        r == metrics_endpoint_of_words(words(first_line(text@))),
{
    let chars = chars_of(text);
    let line = first_line_of(&chars);
    let ws = words_of(&line);
    if ws.len() >= 2 {
        proof {
            assert(views(ws@)[0] == ws@[0]@);
            assert(views(ws@)[1] == ws@[1]@);
        }
        let get = chars_equal_str(&ws[0], "GET");
        if get && chars_equal_str(&ws[1], "/health") {
            MetricsEndpoint::Health
        } else if get && chars_equal_str(&ws[1], "/metrics") {
            MetricsEndpoint::Metrics
        } else {
            MetricsEndpoint::NotFound
        }
    } else {
        MetricsEndpoint::BadRequest
    }
}

/// The endpoint asked for by the raw bytes of a request, read as UTF-8 with
/// invalid sequences replaced.
pub fn metrics_endpoint(request: &[u8]) -> (r: MetricsEndpoint)
    ensures
        r == metrics_endpoint_of(request@),
        valid_utf8(request@) ==> r == metrics_endpoint_of_words(words(first_line(decode_utf8(request@)))),
{
    let text = decode_utf8_lossy(request);
    metrics_endpoint_of_text(text.as_str())
}

/// The endpoint asked for by what one read of a connection returned: an
/// empty read means the peer closed the connection and nothing is answered.
pub fn metrics_request_endpoint(request: &[u8]) -> (r: Option<MetricsEndpoint>)
    ensures
        request@.len() == 0 ==> r is None,
        request@.len() > 0 ==> r == Some(metrics_endpoint_of(request@)),
{
    if request.len() == 0 {
        None
    } else {
        Some(metrics_endpoint(request))
    }
}

/// Status and body of the answer on a metrics-server endpoint.
pub open spec fn metrics_answer(endpoint: MetricsEndpoint, metrics: Seq<char>) -> (Seq<char>, Seq<char>) {
    match endpoint {
        MetricsEndpoint::Health => ("200 OK"@, "OK"@),
        MetricsEndpoint::Metrics => ("200 OK"@, metrics),
        MetricsEndpoint::NotFound => ("404 Not Found"@, "Not Found"@),
        MetricsEndpoint::BadRequest => ("400 Bad Request"@, "Bad Request"@),
    }
}

/// A plain-text response that closes the connection, its `Content-Length`
/// the number of bytes of the body.
pub open spec fn closing_response(status: Seq<char>, body: Seq<char>) -> Seq<char> {
    "HTTP/1.1 "@ + status + "\r\nContent-Type: text/plain\r\nContent-Length: "@ + decimal(utf8_len(body))
        + "\r\nConnection: close\r\n\r\n"@ + body
}

/// Builds a closing plain-text response.
fn closing_response_text(status: &str, body: &str) -> (r: String)
    ensures
        r@ == closing_response(status@, body@),
{
    let mut r = String::new();
    r.append("HTTP/1.1 ");
    r.append(status);
    r.append("\r\nContent-Type: text/plain\r\nContent-Length: ");
    push_decimal(&mut r, utf8_len_of(body));
    r.append("\r\nConnection: close\r\n\r\n");
    r.append(body);
    assert(r@ =~= closing_response(status@, body@));
    r
}

/// The response of the metrics server on `endpoint`, given the metrics text
/// (read only on the metrics endpoint).
pub fn metrics_response(endpoint: MetricsEndpoint, metrics: &str) -> (r: String)
    ensures
        r@ == closing_response(metrics_answer(endpoint, metrics@).0, metrics_answer(endpoint, metrics@).1),
{
    proof {
        reveal_strlit("OK");
        reveal_strlit("Not Found");
        reveal_strlit("Bad Request");
        vstd::utf8::is_ascii_chars_encode_utf8("OK"@);
        vstd::utf8::is_ascii_chars_encode_utf8("Not Found"@);
        vstd::utf8::is_ascii_chars_encode_utf8("Bad Request"@);
    }
    match endpoint {
        MetricsEndpoint::Health => closing_response_text("200 OK", "OK"),
        MetricsEndpoint::Metrics => closing_response_text("200 OK", metrics),
        MetricsEndpoint::NotFound => closing_response_text("404 Not Found", "Not Found"),
        MetricsEndpoint::BadRequest => closing_response_text("400 Bad Request", "Bad Request"),
    }
}

/// What the metrics server does after an accept attempt.
#[derive(Debug, Clone, Copy, PartialEq, Eq, Structural)]
pub enum AcceptStep {
    /// Serve the accepted connection, then accept again.
    Serve,
    /// Wait this many milliseconds, then accept again.
    RetryAfterMillis(u64),
}

/// The metrics server's accept policy: an accepted connection is served; a
/// failed accept never ends the metrics server: it is retried after 100 ms.
pub fn metrics_accept_step(accepted: bool) -> (s: AcceptStep)
    ensures
        accepted ==> s == AcceptStep::Serve,
        !accepted ==> s == AcceptStep::RetryAfterMillis(100),
{
    if accepted {
        AcceptStep::Serve
    } else {
        AcceptStep::RetryAfterMillis(100)
    }
}

/// The header that carries the Cloudflare Zero Trust token.
pub open spec fn jwt_header_name() -> Seq<char> {
    "cf-access-jwt-assertion"@
}

/// Whether a header named `name` is among `headers`.
pub open spec fn has_header(headers: Seq<(String, String)>, name: Seq<char>) -> bool {
    exists|i: int| 0 <= i < headers.len() && (#[trigger] headers[i]).0@ == name
}

/// The gRPC status class of a decision: `Granted` is the OK status.
#[derive(Debug, Clone, Copy, PartialEq, Eq, Structural)]
pub enum CheckStatus {
    Granted,
    InvalidArgument,
    Unauthenticated,
}

/// The decision on a check request.
#[derive(Debug, Clone, Copy, PartialEq, Eq, Structural)]
pub enum CheckOutcome {
    /// The proxy sent no client headers.
    MissingHeaders,
    /// The client headers carry no token.
    MissingJwt,
    /// A token is present; the request is allowed.
    Allowed,
}

/// The decision for the client headers of a check request (`None` when
/// the proxy sent none): a request without headers is rejected as an
/// invalid argument, one without the token header as unauthenticated, and
/// any other is allowed.
pub open spec fn check_outcome(headers: Option<Seq<(String, String)>>) -> CheckOutcome {
    match headers {
        None => CheckOutcome::MissingHeaders,
        Some(h) => if has_header(h, jwt_header_name()) {
            CheckOutcome::Allowed
        } else {
            CheckOutcome::MissingJwt
        },
    }
}

/// The view of optional client headers.
pub open spec fn headers_view(headers: Option<&Vec<(String, String)>>) -> Option<Seq<(String, String)>> {
    match headers {
        Some(h) => Some(h@),
        None => None,
    }
}

impl CheckOutcome {
    /// The gRPC status class answered.
    pub open spec fn spec_status(self) -> CheckStatus {
        match self {
            CheckOutcome::MissingHeaders => CheckStatus::InvalidArgument,
            CheckOutcome::MissingJwt => CheckStatus::Unauthenticated,
            CheckOutcome::Allowed => CheckStatus::Granted,
        }
    }

    /// The message of the status answered.
    pub open spec fn spec_message(self) -> Seq<char> {
        match self {
            CheckOutcome::MissingHeaders => "client headers not populated by envoy"@,
            CheckOutcome::MissingJwt => "missing JWT token"@,
            CheckOutcome::Allowed => "token is valid"@,
        }
    }

    /// The label under which the validation result is counted.
    pub open spec fn spec_validation_result(self) -> Seq<char> {
        match self {
            CheckOutcome::MissingHeaders => "error_no_headers"@,
            CheckOutcome::MissingJwt => "error_no_jwt"@,
            CheckOutcome::Allowed => "success"@,
        }
    }

    /// The gRPC status class answered.
    pub fn status(&self) -> (r: CheckStatus)
        ensures
            r == self.spec_status(),
    {
        match self {
            CheckOutcome::MissingHeaders => CheckStatus::InvalidArgument,
            CheckOutcome::MissingJwt => CheckStatus::Unauthenticated,
            CheckOutcome::Allowed => CheckStatus::Granted,
        }
    }

    /// The message of the status answered.
    pub fn message(&self) -> (r: &'static str)
        ensures
            r@ == self.spec_message(),
    {
        match self {
            CheckOutcome::MissingHeaders => "client headers not populated by envoy",
            CheckOutcome::MissingJwt => "missing JWT token",
            CheckOutcome::Allowed => "token is valid",
        }
    }

    /// Whether the request's duration is recorded: only for an allowed
    /// request, since a rejected one is answered before the timing ends.
    pub fn records_duration(&self) -> (r: bool)
        ensures
            r == (*self == CheckOutcome::Allowed),
    {
        match self {
            CheckOutcome::Allowed => true,
            _ => false,
        }
    }

    /// The label under which the validation result is counted.
    pub fn validation_result(&self) -> (r: &'static str)
        ensures
            r@ == self.spec_validation_result(),
    {
        match self {
            CheckOutcome::MissingHeaders => "error_no_headers",
            CheckOutcome::MissingJwt => "error_no_jwt",
            CheckOutcome::Allowed => "success",
        }
    }
}

/// The authorization service: the audiences that tokens are held to.
pub struct MyAuthorizationService {
    pub audiences: Vec<String>,
}

impl MyAuthorizationService {
    /// A service for the given audiences.
    pub fn new(audiences: Vec<String>) -> (s: Self)
        ensures
            s.audiences == audiences,
    {
        Self { audiences }
    }

    /// Decides a check request from its client headers. The token itself is
    /// not validated: any request that carries a `cf-access-jwt-assertion`
    /// header is allowed, whatever the header holds.
    pub fn check(&self, headers: Option<&Vec<(String, String)>>) -> (r: CheckOutcome)
        ensures
            r == check_outcome(headers_view(headers)),
            headers is None ==> r == CheckOutcome::MissingHeaders,
            headers matches Some(h) && (exists|i: int| 0 <= i < h.len() && (#[trigger] h@[i]).0@ == "cf-access-jwt-assertion"@)
                ==> r == CheckOutcome::Allowed,
            headers matches Some(h) && (forall|i: int| 0 <= i < h.len() ==> (#[trigger] h@[i]).0@ != "cf-access-jwt-assertion"@)
                ==> r == CheckOutcome::MissingJwt,
    {
        proof {
            if let Some(h) = headers {
                lemma_check_outcome_by_headers(h@);
            }
        }
        match headers {
            None => CheckOutcome::MissingHeaders,
            Some(h) => {
                let mut i: usize = 0;
                while i < h.len()
                    invariant
                        headers_view(headers) == Some(h@),
                        i <= h.len(),
                        forall|j: int| 0 <= j < i ==> (#[trigger] h@[j]).0@ != jwt_header_name(),
                    decreases h.len() - i,
                {
                    let name = chars_of(h[i].0.as_str());
                    if chars_equal_str(&name, "cf-access-jwt-assertion") {
                        assert(has_header(h@, jwt_header_name()));
                        return CheckOutcome::Allowed;
                    }
                    i = i + 1;
                }
                CheckOutcome::MissingJwt
            },
        }
    }
}

/// A listen URL beginning `tcp://` names the TCP address after that prefix,
/// one beginning `unix://` the socket path after it, and any other URL a
/// TCP address as it stands.
pub proof fn lemma_listen_address_by_prefix(url: Seq<char>)
    ensures
        url.len() >= 6 && url.take(6) == "tcp://"@ ==> listen_address_of(url) == ListenAddressView::Tcp(url.skip(6)),
        url.len() >= 7 && url.take(7) == "unix://"@ ==> listen_address_of(url) == ListenAddressView::Unix(url.skip(7)),
        !(url.len() >= 6 && url.take(6) == "tcp://"@) && !(url.len() >= 7 && url.take(7) == "unix://"@)
            ==> listen_address_of(url) == ListenAddressView::Tcp(url),
{
    reveal_strlit("tcp://");
    reveal_strlit("unix://");
    if url.len() >= 7 && url.take(7) == "unix://"@ {
        assert(url.take(6)[0] == 'u');
    }
}

/// The metrics server's endpoints by the words of the request line: fewer
/// than two words is a bad request; `GET /health` and `GET /metrics` are
/// served; anything else is not found.
pub proof fn lemma_metrics_endpoint_by_words(ws: Seq<Seq<char>>)
    ensures
        ws.len() < 2 ==> metrics_endpoint_of_words(ws) == MetricsEndpoint::BadRequest,
        ws.len() >= 2 && ws[0] == "GET"@ && ws[1] == "/health"@ ==> metrics_endpoint_of_words(ws) == MetricsEndpoint::Health,
        ws.len() >= 2 && ws[0] == "GET"@ && ws[1] == "/metrics"@ ==> metrics_endpoint_of_words(ws) == MetricsEndpoint::Metrics,
        ws.len() >= 2 && !(ws[0] == "GET"@ && (ws[1] == "/health"@ || ws[1] == "/metrics"@))
            ==> metrics_endpoint_of_words(ws) == MetricsEndpoint::NotFound,
{
    reveal_strlit("/health");
    reveal_strlit("/metrics");
    assert("/health"@[1] != "/metrics"@[1]);
}

/// What each metrics-server endpoint answers.
pub proof fn lemma_metrics_answers(metrics: Seq<char>)
    ensures
        metrics_answer(MetricsEndpoint::Health, metrics) == ("200 OK"@, "OK"@),
        metrics_answer(MetricsEndpoint::Metrics, metrics) == ("200 OK"@, metrics),
        metrics_answer(MetricsEndpoint::NotFound, metrics) == ("404 Not Found"@, "Not Found"@),
        metrics_answer(MetricsEndpoint::BadRequest, metrics) == ("400 Bad Request"@, "Bad Request"@),
{
}

/// A check request is decided by its client headers: without headers it is
/// an invalid argument; with a header named `cf-access-jwt-assertion` at any
/// position it is allowed; otherwise it is unauthenticated.
pub proof fn lemma_check_outcome_by_headers(h: Seq<(String, String)>)
    ensures
        check_outcome(None) == CheckOutcome::MissingHeaders,
        (exists|i: int| 0 <= i < h.len() && (#[trigger] h[i]).0@ == "cf-access-jwt-assertion"@)
            ==> check_outcome(Some(h)) == CheckOutcome::Allowed,
        (forall|i: int| 0 <= i < h.len() ==> (#[trigger] h[i]).0@ != "cf-access-jwt-assertion"@)
            ==> check_outcome(Some(h)) == CheckOutcome::MissingJwt,
{
    if exists|i: int| 0 <= i < h.len() && (#[trigger] h[i]).0@ == "cf-access-jwt-assertion"@ {
        let i = choose|i: int| 0 <= i < h.len() && (#[trigger] h[i]).0@ == "cf-access-jwt-assertion"@;
        assert(has_header(h, jwt_header_name()));
    }
}

/// The status, message and label of each decision.
pub proof fn lemma_check_outcome_answers()
    ensures
        CheckOutcome::MissingHeaders.spec_status() == CheckStatus::InvalidArgument,
        CheckOutcome::MissingHeaders.spec_message() == "client headers not populated by envoy"@,
        CheckOutcome::MissingHeaders.spec_validation_result() == "error_no_headers"@,
        CheckOutcome::MissingJwt.spec_status() == CheckStatus::Unauthenticated,
        CheckOutcome::MissingJwt.spec_message() == "missing JWT token"@,
        CheckOutcome::MissingJwt.spec_validation_result() == "error_no_jwt"@,
        CheckOutcome::Allowed.spec_status() == CheckStatus::Granted,
        CheckOutcome::Allowed.spec_message() == "token is valid"@,
        CheckOutcome::Allowed.spec_validation_result() == "success"@,
{
}

} // verus!
