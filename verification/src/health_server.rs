//! Routing and answers of the observability endpoint that serves readiness,
//! liveness and metrics over plain HTTP.
use vstd::prelude::*;
use vstd::utf8::{decode_utf8, valid_utf8};
pub use crate::health::HealthState;
use crate::health::plain_response;
use crate::text::{
    chars_equal_str, chars_of, decode_utf8_lossy, first_line, first_line_of,
    lossy_utf8, push_decimal, utf8_len_of, views, words, words_of,
};

verus! {

/// The endpoint a request asks for.
#[derive(Debug, Clone, Copy, PartialEq, Eq, Structural)]
pub enum HealthRoute {
    /// `/readyz`: whether the validator is ready.
    Readyz,
    /// `/healthz`: whether the process is alive.
    Healthz,
    /// `/metrics`: the collected metrics.
    Metrics,
    /// Any other path, or none.
    NotFound,
}

/// The request target of a request text: the second white-space separated
/// word of its first line, or the empty text when there is none.
pub open spec fn request_target(text: Seq<char>) -> Seq<char> {
    let ws = words(first_line(text));
    if ws.len() > 1 { ws[1] } else { Seq::empty() }
}

/// The endpoint named by a request target.
pub open spec fn route_of_target(target: Seq<char>) -> HealthRoute {
    if target == "/readyz"@ {
        HealthRoute::Readyz
    } else if target == "/healthz"@ {
        HealthRoute::Healthz
    } else if target == "/metrics"@ {
        HealthRoute::Metrics
    } else {
        HealthRoute::NotFound
    }
}

/// The endpoint asked for by the raw request bytes, read as UTF-8 with
/// invalid sequences replaced.
pub open spec fn route_of_request(request: Seq<u8>) -> HealthRoute {
    route_of_target(request_target(lossy_utf8(request)))
}

/// The request target of a request text.
pub fn request_target_of(text: &str) -> (r: Vec<char>)
    ensures
        r@ == request_target(text@),
{
    let chars = chars_of(text);
    let line = first_line_of(&chars);
    let ws = words_of(&line);
    if ws.len() > 1 {
        proof {
            assert(views(ws@)[1] == ws@[1]@);
        }
        ws[1].clone()
    } else {
        Vec::new()
    }
}

/// The endpoint asked for by a request text.
pub fn route_text(text: &str) -> (r: HealthRoute)
    ensures
        r == route_of_target(request_target(text@)),
{
    let target = request_target_of(text);
    if chars_equal_str(&target, "/readyz") {
        HealthRoute::Readyz
    } else if chars_equal_str(&target, "/healthz") {
        HealthRoute::Healthz
    } else if chars_equal_str(&target, "/metrics") {
        HealthRoute::Metrics
    } else {
        HealthRoute::NotFound
    }
}

/// The endpoint asked for by the raw bytes of a request, read as UTF-8 with
/// invalid sequences replaced.
pub fn route_request(request: &[u8]) -> (r: HealthRoute)
    ensures
        r == route_of_request(request@),
        valid_utf8(request@) ==> r == route_of_target(request_target(decode_utf8(request@))),
{
    let text = decode_utf8_lossy(request);
    route_text(text.as_str())
}

/// Status and body of the answer on an endpoint: readiness answers by the
/// validator's state, liveness always positively, metrics with the metrics
/// text, anything else with not found.
pub open spec fn endpoint_answer(route: HealthRoute, ready: bool, metrics: Seq<char>) -> (Seq<char>, Seq<char>) {
    match route {
        HealthRoute::Readyz => if ready {
            ("200 OK"@, "OK"@)
        } else {
            ("503 Service Unavailable"@, "NOT READY"@)
        },
        HealthRoute::Healthz => ("200 OK"@, "OK"@),
        HealthRoute::Metrics => ("200 OK"@, metrics),
        HealthRoute::NotFound => ("404 Not Found"@, "NOT FOUND"@),
    }
}

/// Builds the full plain-text response with the given status and body.
pub fn plain_response_text(status: &str, body: &str) -> (r: String)
    ensures
        r@ == plain_response(status@, body@),
{
    let mut r = String::new();
    r.append("HTTP/1.1 ");
    r.append(status);
    r.append("\r\nContent-Length: ");
    push_decimal(&mut r, utf8_len_of(body));
    r.append("\r\nContent-Type: text/plain\r\n\r\n");
    r.append(body);
    assert(r@ =~= plain_response(status@, body@));
    r
}

/// The response on endpoint `route`, given the readiness state and the
/// metrics text (read only on the metrics endpoint).
pub fn endpoint_response(route: HealthRoute, state: &HealthState, metrics: &str) -> (r: String)
    ensures
        r@ == plain_response(endpoint_answer(route, state@, metrics@).0, endpoint_answer(route, state@, metrics@).1),
        route == HealthRoute::Metrics ==> r@ == plain_response("200 OK"@, metrics@),
        route == HealthRoute::Healthz ==> r@ == plain_response("200 OK"@, "OK"@),
        route == HealthRoute::Readyz && state@ ==> r@ == plain_response("200 OK"@, "OK"@),
        route == HealthRoute::Readyz && !state@ ==> r@ == plain_response("503 Service Unavailable"@, "NOT READY"@),
        route == HealthRoute::NotFound ==> r@ == plain_response("404 Not Found"@, "NOT FOUND"@),
{
    match route {
        HealthRoute::Readyz => if state.is_validator_ready() {
            plain_response_text("200 OK", "OK")
        } else {
            plain_response_text("503 Service Unavailable", "NOT READY")
        },
        HealthRoute::Healthz => plain_response_text("200 OK", "OK"),
        HealthRoute::Metrics => plain_response_text("200 OK", metrics),
        HealthRoute::NotFound => plain_response_text("404 Not Found", "NOT FOUND"),
    }
}

/// A request whose target is `/readyz` is answered `200 OK` exactly when the
/// validator is ready (and `503` otherwise); one whose target is `/healthz`
/// is answered `200 OK` with body `OK` in every state.
pub proof fn lemma_probe_requests_answered_by_readiness(request: Seq<u8>, ready: bool, metrics: Seq<char>)
    ensures
        route_of_request(request) == HealthRoute::Readyz ==> (endpoint_answer(route_of_request(request), ready, metrics).0
            == "200 OK"@ <==> ready),
        route_of_request(request) == HealthRoute::Healthz ==> endpoint_answer(route_of_request(request), ready, metrics)
            == ("200 OK"@, "OK"@),
{
    reveal_strlit("200 OK");
    reveal_strlit("503 Service Unavailable");
    assert("200 OK"@[0] != "503 Service Unavailable"@[0]);
}

/// The endpoints are named by their exact request targets: `/readyz`,
/// `/healthz` and `/metrics`, and every other target is not found.
pub proof fn lemma_routes_by_exact_target(target: Seq<char>)
    ensures
        target == "/readyz"@ ==> route_of_target(target) == HealthRoute::Readyz,
        target == "/healthz"@ ==> route_of_target(target) == HealthRoute::Healthz,
        target == "/metrics"@ ==> route_of_target(target) == HealthRoute::Metrics,
        target != "/readyz"@ && target != "/healthz"@ && target != "/metrics"@
            ==> route_of_target(target) == HealthRoute::NotFound,
{
    reveal_strlit("/readyz");
    reveal_strlit("/healthz");
    reveal_strlit("/metrics");
    assert("/readyz"@[1] != "/healthz"@[1]);
    assert("/readyz"@[1] != "/metrics"@[1]);
    assert("/healthz"@[1] != "/metrics"@[1]);
}

/// What each endpoint answers, in every readiness state: metrics and
/// liveness do not depend on readiness, the readiness probe does, and
/// anything else is not found.
pub proof fn lemma_endpoint_answers(ready: bool, metrics: Seq<char>)
    ensures
        endpoint_answer(HealthRoute::Metrics, ready, metrics) == ("200 OK"@, metrics),
        endpoint_answer(HealthRoute::Healthz, ready, metrics) == ("200 OK"@, "OK"@),
        ready ==> endpoint_answer(HealthRoute::Readyz, ready, metrics) == ("200 OK"@, "OK"@),
        !ready ==> endpoint_answer(HealthRoute::Readyz, ready, metrics) == ("503 Service Unavailable"@, "NOT READY"@),
        endpoint_answer(HealthRoute::NotFound, ready, metrics) == ("404 Not Found"@, "NOT FOUND"@),
{
}

} // verus!
