use extauthz_cfzt::health::{
    readiness_response, HealthState, NOT_FOUND_RESPONSE, NOT_READY_RESPONSE, READY_RESPONSE,
};
use extauthz_cfzt::health_server::{endpoint_response, route_request, HealthRoute};

#[test]
fn test_health_state_new() {
    let state = HealthState::new();
    assert!(!state.is_validator_ready());
}

#[test]
fn test_health_state_default() {
    let state = HealthState::default();
    assert!(!state.is_validator_ready());
}

#[test]
fn test_health_state_mark_ready() {
    let mut state = HealthState::new();
    assert!(!state.is_validator_ready());

    state.mark_validator_ready();
    assert!(state.is_validator_ready());
}

#[test]
fn test_readyz_endpoint_not_ready() {
    let state = HealthState::new();
    let request = "GET /readyz HTTP/1.1\r\nHost: localhost\r\n\r\n";
    let line = request.split_inclusive('\n').next().unwrap();
    let response = readiness_response(line, &state);

    assert!(response.contains("503 Service Unavailable"));
    assert!(response.contains("NOT READY"));
}

#[test]
fn test_readyz_endpoint_ready() {
    let mut state = HealthState::new();
    state.mark_validator_ready();
    let request = "GET /readyz HTTP/1.1\r\nHost: localhost\r\n\r\n";
    let line = request.split_inclusive('\n').next().unwrap();
    let response = readiness_response(line, &state);

    assert!(response.contains("200 OK"));
    assert!(response.contains("OK"));
    assert!(!response.contains("NOT READY"));
}

#[test]
fn test_healthz_endpoint() {
    let state = HealthState::new();
    let request = "GET /healthz HTTP/1.1\r\nHost: localhost\r\n\r\n";
    let line = request.split_inclusive('\n').next().unwrap();
    let response = readiness_response(line, &state);

    assert!(response.contains("200 OK"));
    assert!(response.contains("OK"));
}

#[test]
fn test_unknown_endpoint() {
    let state = HealthState::new();
    let request = "GET /unknown HTTP/1.1\r\nHost: localhost\r\n\r\n";
    let line = request.split_inclusive('\n').next().unwrap();
    let response = readiness_response(line, &state);

    assert!(response.contains("404 Not Found"));
    assert!(response.contains("NOT FOUND"));
}

#[test]
fn test_malformed_request() {
    let state = HealthState::new();
    let line = "INVALID REQUEST\r\n";
    let response = readiness_response(line, &state);

    assert!(response.contains("404 Not Found"));
    assert!(response.contains("NOT FOUND"));
}

#[test]
fn test_response_constants() {
    // Test that responses have correct content-length
    assert!(READY_RESPONSE.contains("Content-Length: 2"));
    assert!(READY_RESPONSE.contains("OK"));

    assert!(NOT_READY_RESPONSE.contains("Content-Length: 9"));
    assert!(NOT_READY_RESPONSE.contains("NOT READY"));

    assert!(NOT_FOUND_RESPONSE.contains("Content-Length: 9"));
    assert!(NOT_FOUND_RESPONSE.contains("NOT FOUND"));
}

#[test]
fn test_concurrent_requests() {
    let state = HealthState::new();
    for i in 0..10 {
        let endpoint = if i % 2 == 0 { "/readyz" } else { "/healthz" };
        let request = format!("GET {} HTTP/1.1\r\nHost: localhost\r\n\r\n", endpoint);
        let line = request.split_inclusive('\n').next().unwrap();
        let response = readiness_response(line, &state);
        assert!(response.contains("HTTP/1.1"));
    }
}

#[test]
fn readiness_probe_found_anywhere_in_line() {
    let mut state = HealthState::new();
    state.mark_validator_ready();
    assert_eq!(readiness_response("xx GET /readyz", &state), READY_RESPONSE);
    assert_eq!(readiness_response("get /readyz", &state), NOT_FOUND_RESPONSE);
    assert_eq!(readiness_response("", &state), NOT_FOUND_RESPONSE);
}

#[test]
fn fixed_responses_are_exact() {
    assert_eq!(
        READY_RESPONSE,
        "HTTP/1.1 200 OK\r\nContent-Length: 2\r\nContent-Type: text/plain\r\n\r\nOK"
    );
    assert_eq!(
        NOT_READY_RESPONSE,
        "HTTP/1.1 503 Service Unavailable\r\nContent-Length: 9\r\nContent-Type: text/plain\r\n\r\nNOT READY"
    );
    assert_eq!(
        NOT_FOUND_RESPONSE,
        "HTTP/1.1 404 Not Found\r\nContent-Length: 9\r\nContent-Type: text/plain\r\n\r\nNOT FOUND"
    );
}

#[test]
fn health_server_routes_by_request_target() {
    assert_eq!(route_request(b"GET /readyz HTTP/1.1\r\n\r\n"), HealthRoute::Readyz);
    assert_eq!(route_request(b"GET /healthz HTTP/1.1\r\n"), HealthRoute::Healthz);
    assert_eq!(route_request(b"POST /metrics"), HealthRoute::Metrics);
    assert_eq!(route_request(b"GET /readyz/x HTTP/1.1"), HealthRoute::NotFound);
    assert_eq!(route_request(b"/readyz"), HealthRoute::NotFound);
    assert_eq!(route_request(b""), HealthRoute::NotFound);
    // white space other than ASCII separates words too
    assert_eq!(route_request("GET\u{a0}/healthz".as_bytes()), HealthRoute::Healthz);
    // only the first line counts
    assert_eq!(route_request(b"GET\n/readyz"), HealthRoute::NotFound);
    // invalid UTF-8 is replaced, not rejected
    assert_eq!(route_request(b"\xff\xfe /metrics"), HealthRoute::Metrics);
}

#[test]
fn health_server_answers() {
    let mut state = HealthState::new();
    assert_eq!(
        endpoint_response(HealthRoute::Readyz, &state, ""),
        "HTTP/1.1 503 Service Unavailable\r\nContent-Length: 9\r\nContent-Type: text/plain\r\n\r\nNOT READY"
    );
    assert_eq!(
        endpoint_response(HealthRoute::Healthz, &state, ""),
        "HTTP/1.1 200 OK\r\nContent-Length: 2\r\nContent-Type: text/plain\r\n\r\nOK"
    );
    state.mark_validator_ready();
    assert_eq!(
        endpoint_response(HealthRoute::Readyz, &state, ""),
        "HTTP/1.1 200 OK\r\nContent-Length: 2\r\nContent-Type: text/plain\r\n\r\nOK"
    );
    assert_eq!(
        endpoint_response(HealthRoute::Metrics, &state, "a 1\n\u{e9}"),
        "HTTP/1.1 200 OK\r\nContent-Length: 6\r\nContent-Type: text/plain\r\n\r\na 1\n\u{e9}"
    );
    assert_eq!(
        endpoint_response(HealthRoute::NotFound, &state, "ignored"),
        "HTTP/1.1 404 Not Found\r\nContent-Length: 9\r\nContent-Type: text/plain\r\n\r\nNOT FOUND"
    );
}
