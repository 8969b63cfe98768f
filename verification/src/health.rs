//! Readiness state of the validator and the answers of the readiness
//! endpoint that reads a single request line.
use vstd::prelude::*;
use crate::text::{chars_of, contains_run, contains_str, decimal, utf8_len};
use vstd::utf8::{is_ascii_chars, is_ascii_chars_encode_utf8};

verus! {

/// Whether the validator has its signing keys and may answer requests.
#[derive(Debug)]
pub struct HealthState {
    validator_ready: bool,
}

impl View for HealthState {
    type V = bool;

    /// Whether the validator is ready.
    closed spec fn view(&self) -> bool {
        self.validator_ready
    }
}

impl HealthState {
    /// A state in which the validator is not ready yet.
    pub fn new() -> (s: Self)
        ensures
            !s@,
    {
        HealthState { validator_ready: false }
    }

    /// Records that the validator is ready.
    pub fn mark_validator_ready(&mut self)
        ensures
            final(self)@,
    {
        self.validator_ready = true;
    }

    /// Whether the validator is ready.
    pub fn is_validator_ready(&self) -> (r: bool)
        ensures
            r == self@,
    {
        self.validator_ready
    }
}

impl Default for HealthState {
    /// Same as [`HealthState::new`].
    fn default() -> (s: Self)
        ensures
            !s@,
    {
        Self::new()
    }
}

/// The answer to a readiness probe when the validator is ready, and to a
/// liveness probe.
pub const READY_RESPONSE: &'static str =
    "HTTP/1.1 200 OK\r\nContent-Length: 2\r\nContent-Type: text/plain\r\n\r\nOK";

/// The answer to a readiness probe while the validator is not ready.
pub const NOT_READY_RESPONSE: &'static str =
    "HTTP/1.1 503 Service Unavailable\r\nContent-Length: 9\r\nContent-Type: text/plain\r\n\r\nNOT READY";

/// The answer to any other request.
pub const NOT_FOUND_RESPONSE: &'static str =
    "HTTP/1.1 404 Not Found\r\nContent-Length: 9\r\nContent-Type: text/plain\r\n\r\nNOT FOUND";

/// A plain-text HTTP/1.1 response with the given status line tail and body,
/// its `Content-Length` the number of bytes of the body.
pub open spec fn plain_response(status: Seq<char>, body: Seq<char>) -> Seq<char> {
    "HTTP/1.1 "@ + status + "\r\nContent-Length: "@ + decimal(utf8_len(body)) + "\r\nContent-Type: text/plain\r\n\r\n"@ + body
}

/// The answer to the request line `line`: a readiness probe
/// (`GET /readyz` anywhere in the line) is answered by readiness, a liveness
/// probe (`GET /healthz`) always positively, anything else with not found.
pub open spec fn readiness_answer(line: Seq<char>, ready: bool) -> Seq<char> {
    if contains_run(line, "GET /readyz"@) {
        if ready { READY_RESPONSE@ } else { NOT_READY_RESPONSE@ }
    } else if contains_run(line, "GET /healthz"@) {
        READY_RESPONSE@
    } else {
        NOT_FOUND_RESPONSE@
    }
}

/// The response to the request line `line`, given the readiness state.
pub fn readiness_response(line: &str, state: &HealthState) -> (r: &'static str)
    ensures
        r@ == readiness_answer(line@, state@),
        !contains_run(line@, "GET /readyz"@) && !contains_run(line@, "GET /healthz"@) ==> r == NOT_FOUND_RESPONSE,
        contains_run(line@, "GET /readyz"@) ==> r == (if state@ { READY_RESPONSE } else { NOT_READY_RESPONSE }),
        !contains_run(line@, "GET /readyz"@) && contains_run(line@, "GET /healthz"@) ==> r == READY_RESPONSE,
{
    let chars = chars_of(line);
    if contains_str(&chars, "GET /readyz") {
        if state.is_validator_ready() {
            READY_RESPONSE
        } else {
            NOT_READY_RESPONSE
        }
    } else if contains_str(&chars, "GET /healthz") {
        READY_RESPONSE
    } else {
        NOT_FOUND_RESPONSE
    }
}

/// The three fixed responses are well formed: each is a plain-text response
/// whose `Content-Length` is the byte length of its body.
pub proof fn lemma_fixed_responses_well_formed()
    ensures
        READY_RESPONSE@ == plain_response("200 OK"@, "OK"@),
        NOT_READY_RESPONSE@ == plain_response("503 Service Unavailable"@, "NOT READY"@),
        NOT_FOUND_RESPONSE@ == plain_response("404 Not Found"@, "NOT FOUND"@),
{
    reveal_strlit("HTTP/1.1 200 OK\r\nContent-Length: 2\r\nContent-Type: text/plain\r\n\r\nOK");
    reveal_strlit("HTTP/1.1 503 Service Unavailable\r\nContent-Length: 9\r\nContent-Type: text/plain\r\n\r\nNOT READY");
    reveal_strlit("HTTP/1.1 404 Not Found\r\nContent-Length: 9\r\nContent-Type: text/plain\r\n\r\nNOT FOUND");
    reveal_strlit("HTTP/1.1 ");
    reveal_strlit("\r\nContent-Length: ");
    reveal_strlit("\r\nContent-Type: text/plain\r\n\r\n");
    reveal_strlit("200 OK");
    reveal_strlit("OK");
    reveal_strlit("503 Service Unavailable");
    reveal_strlit("NOT READY");
    reveal_strlit("404 Not Found");
    reveal_strlit("NOT FOUND");
    assert(is_ascii_chars("OK"@));
    assert(is_ascii_chars("NOT READY"@));
    assert(is_ascii_chars("NOT FOUND"@));
    is_ascii_chars_encode_utf8("OK"@);
    is_ascii_chars_encode_utf8("NOT READY"@);
    is_ascii_chars_encode_utf8("NOT FOUND"@);
    assert(decimal(2) =~= seq!['2']);
    assert(decimal(9) =~= seq!['9']);
    assert(READY_RESPONSE@ =~= plain_response("200 OK"@, "OK"@));
    assert(NOT_READY_RESPONSE@ =~= plain_response("503 Service Unavailable"@, "NOT READY"@));
    assert(NOT_FOUND_RESPONSE@ =~= plain_response("404 Not Found"@, "NOT FOUND"@));
}

/// Once the validator is marked ready, every readiness probe is answered
/// positively, and a liveness probe is answered positively in every state.
pub proof fn lemma_ready_state_answers_probes(line: Seq<char>, ready: bool)
    ensures
        contains_run(line, "GET /readyz"@) ==> (readiness_answer(line, ready) == READY_RESPONSE@ <==> ready),
        !contains_run(line, "GET /readyz"@) && contains_run(line, "GET /healthz"@) ==> readiness_answer(line, ready) == READY_RESPONSE@,
{
    reveal_strlit("HTTP/1.1 200 OK\r\nContent-Length: 2\r\nContent-Type: text/plain\r\n\r\nOK");
    reveal_strlit("HTTP/1.1 503 Service Unavailable\r\nContent-Length: 9\r\nContent-Type: text/plain\r\n\r\nNOT READY");
    let a = READY_RESPONSE@;
    let b = NOT_READY_RESPONSE@;
    assert(a[9] != b[9]);
}

/// A request line that asks for neither probe is answered not found, in
/// every state; a readiness probe is answered ready or not ready by the
/// state; a liveness probe (without a readiness probe in the line) is
/// answered ready.
pub proof fn lemma_request_line_answers(line: Seq<char>, ready: bool)
    ensures
        !contains_run(line, "GET /readyz"@) && !contains_run(line, "GET /healthz"@)
            ==> readiness_answer(line, ready) == NOT_FOUND_RESPONSE@,
        contains_run(line, "GET /readyz"@) && ready ==> readiness_answer(line, ready) == READY_RESPONSE@,
        contains_run(line, "GET /readyz"@) && !ready ==> readiness_answer(line, ready) == NOT_READY_RESPONSE@,
        !contains_run(line, "GET /readyz"@) && contains_run(line, "GET /healthz"@)
            ==> readiness_answer(line, ready) == READY_RESPONSE@,
{
}

} // verus!
