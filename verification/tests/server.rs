use extauthz_cfzt::server::{
    metrics_accept_step, metrics_request_endpoint, AcceptStep, metrics_bind_address, metrics_endpoint, metrics_response, CheckOutcome, CheckStatus,
    ListenAddress, MetricsEndpoint, MyAuthorizationService,
};

#[test]
fn listen_address_from_url() {
    assert_eq!(
        ListenAddress::from_url("tcp://127.0.0.1:8080"),
        ListenAddress::Tcp("127.0.0.1:8080".to_string())
    );
    assert_eq!(
        ListenAddress::from_url("127.0.0.1:8080"),
        ListenAddress::Tcp("127.0.0.1:8080".to_string())
    );
    assert_eq!(
        ListenAddress::from_url("unix:///tmp/server.sock"),
        ListenAddress::Unix("/tmp/server.sock".to_string())
    );
    assert_eq!(
        ListenAddress::from_url("tcp://[::1]:10000"),
        ListenAddress::Tcp("[::1]:10000".to_string())
    );
    assert_eq!(ListenAddress::from_url("unix:/x"), ListenAddress::Tcp("unix:/x".to_string()));
}

#[test]
fn metrics_address() {
    assert_eq!(metrics_bind_address(8080), "0.0.0.0:8080");
    assert_eq!(metrics_bind_address(0), "0.0.0.0:0");
    assert_eq!(metrics_bind_address(65535), "0.0.0.0:65535");
}

#[test]
fn metrics_endpoints() {
    assert_eq!(metrics_endpoint(b"GET /health HTTP/1.1\r\n\r\n"), MetricsEndpoint::Health);
    assert_eq!(metrics_endpoint(b"GET /metrics HTTP/1.1\r\n"), MetricsEndpoint::Metrics);
    assert_eq!(metrics_endpoint(b"POST /metrics HTTP/1.1"), MetricsEndpoint::NotFound);
    assert_eq!(metrics_endpoint(b"GET /other"), MetricsEndpoint::NotFound);
    assert_eq!(metrics_endpoint(b"GET"), MetricsEndpoint::BadRequest);
    assert_eq!(metrics_endpoint(b""), MetricsEndpoint::BadRequest);
    assert_eq!(metrics_endpoint(b"GET\r\n/health"), MetricsEndpoint::BadRequest);
}

#[test]
fn metrics_responses() {
    assert_eq!(
        metrics_response(MetricsEndpoint::Health, ""),
        "HTTP/1.1 200 OK\r\nContent-Type: text/plain\r\nContent-Length: 2\r\nConnection: close\r\n\r\nOK"
    );
    assert_eq!(
        metrics_response(MetricsEndpoint::Metrics, "m 12\n"),
        "HTTP/1.1 200 OK\r\nContent-Type: text/plain\r\nContent-Length: 5\r\nConnection: close\r\n\r\nm 12\n"
    );
    assert_eq!(
        metrics_response(MetricsEndpoint::NotFound, ""),
        "HTTP/1.1 404 Not Found\r\nContent-Type: text/plain\r\nContent-Length: 9\r\nConnection: close\r\n\r\nNot Found"
    );
    assert_eq!(
        metrics_response(MetricsEndpoint::BadRequest, ""),
        "HTTP/1.1 400 Bad Request\r\nContent-Type: text/plain\r\nContent-Length: 11\r\nConnection: close\r\n\r\nBad Request"
    );
}

#[test]
fn check_decisions() {
    let service = MyAuthorizationService::new(vec!["my-app".to_string()]);
    assert_eq!(service.audiences, vec!["my-app".to_string()]);

    let none = service.check(None);
    assert_eq!(none, CheckOutcome::MissingHeaders);
    assert_eq!(none.status(), CheckStatus::InvalidArgument);
    assert_eq!(none.message(), "client headers not populated by envoy");
    assert_eq!(none.validation_result(), "error_no_headers");

    let headers = vec![("host".to_string(), "example.com".to_string())];
    let no_jwt = service.check(Some(&headers));
    assert_eq!(no_jwt, CheckOutcome::MissingJwt);
    assert_eq!(no_jwt.status(), CheckStatus::Unauthenticated);
    assert_eq!(no_jwt.message(), "missing JWT token");
    assert_eq!(no_jwt.validation_result(), "error_no_jwt");

    let headers = vec![
        ("host".to_string(), "example.com".to_string()),
        ("cf-access-jwt-assertion".to_string(), "token".to_string()),
    ];
    let allowed = service.check(Some(&headers));
    assert_eq!(allowed, CheckOutcome::Allowed);
    assert_eq!(allowed.status(), CheckStatus::Granted);
    assert_eq!(allowed.message(), "token is valid");
    assert_eq!(allowed.validation_result(), "success");

    let headers = vec![("Cf-Access-Jwt-Assertion".to_string(), "token".to_string())];
    assert_eq!(service.check(Some(&headers)), CheckOutcome::MissingJwt);
}

#[test]
fn metrics_accept_policy() {
    assert_eq!(metrics_accept_step(true), AcceptStep::Serve);
    assert_eq!(metrics_accept_step(false), AcceptStep::RetryAfterMillis(100));
}

#[test]
fn metrics_reads_and_timing() {
    assert_eq!(metrics_request_endpoint(b""), None);
    assert_eq!(metrics_request_endpoint(b"GET /metrics"), Some(MetricsEndpoint::Metrics));
    assert!(CheckOutcome::Allowed.records_duration());
    assert!(!CheckOutcome::MissingJwt.records_duration());
    assert!(!CheckOutcome::MissingHeaders.records_duration());
}
