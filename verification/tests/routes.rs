use rust_api::Dispatch;
use rust_api::dispatch;
use rust_api::handle_request;
use rust_api::respond;
use rust_api::service::HttpResponse;

fn header_value<'a>(response: &'a HttpResponse, name: &str) -> Option<&'a str> {
    response
        .headers
        .iter()
        .find(|(n, _)| n == name)
        .map(|(_, v)| v.as_str())
}

#[test]
fn test_dispatch_table() {
    assert_eq!(dispatch("GET", "/"), Dispatch::Welcome);
    assert_eq!(dispatch("GET", "/api/status"), Dispatch::Status);
    assert_eq!(dispatch("GET", "/api/hello"), Dispatch::Hello);
    assert_eq!(dispatch("POST", "/"), Dispatch::MethodNotAllowed);
    assert_eq!(dispatch("PUT", "/api/status"), Dispatch::MethodNotAllowed);
    assert_eq!(dispatch("GET", "/unknown"), Dispatch::NotFound);
    assert_eq!(dispatch("GET", "/api"), Dispatch::NotFound);
    assert_eq!(dispatch("GET", ""), Dispatch::NotFound);
    assert_eq!(dispatch("POST", "/nowhere"), Dispatch::NotFound);
}

#[test]
fn test_root_route() {
    let response = handle_request("GET", "/");
    assert_eq!(response.status, 200);
    let body: serde_json::Value = serde_json::from_str(&response.body).unwrap();
    assert_eq!(body["status"], "success");
    assert!(!body["message"].as_str().unwrap().is_empty());
    let timestamp = body["timestamp"].as_str().unwrap();
    assert!(chrono::DateTime::parse_from_rfc3339(timestamp).is_ok());
}

#[test]
fn test_status_route() {
    let response = handle_request("GET", "/api/status");
    assert_eq!(response.status, 200);
    let body: serde_json::Value = serde_json::from_str(&response.body).unwrap();
    assert_eq!(body["service"], "rust-api");
    assert_eq!(body["version"], "0.1.0");
}

#[test]
fn test_hello_route() {
    let response = handle_request("GET", "/api/hello");
    assert_eq!(response.status, 200);
    let body: serde_json::Value = serde_json::from_str(&response.body).unwrap();
    assert_eq!(body["status"], "success");
    assert!(!body["message"].as_str().unwrap().is_empty());
    let timestamp = body["timestamp"].as_str().unwrap();
    assert!(chrono::DateTime::parse_from_rfc3339(timestamp).is_ok());
}

#[test]
fn test_status_route_exact_body() {
    let response = respond("GET", "/api/status", "2024-01-01T00:00:00+00:00");
    assert_eq!(response.status, 200);
    assert_eq!(
        response.body,
        "{\"service\":\"rust-api\",\"version\":\"0.1.0\",\
         \"status\":\"正常稼働中\",\
         \"message\":\"すべてのシステムが正常に動作しています\"}"
    );
    assert_eq!(header_value(&response, "content-type"), Some("application/json"));
}

#[test]
fn test_unmatched_requests_rejected() {
    let not_found = handle_request("GET", "/unknown");
    assert_eq!(not_found.status, 404);
    assert!(not_found.body.is_empty());

    let wrong_method = handle_request("POST", "/");
    assert_eq!(wrong_method.status, 405);
    assert!(wrong_method.body.is_empty());

    let wrong_method_api = handle_request("DELETE", "/api/hello");
    assert_eq!(wrong_method_api.status, 405);

    let nested = handle_request("GET", "/api/status/extra");
    assert_eq!(nested.status, 404);

    for response in [not_found, wrong_method, wrong_method_api, nested] {
        assert_ne!(response.status, 200);
    }
}

#[test]
fn test_cors_header_on_every_response() {
    let cases = [
        ("GET", "/"),
        ("GET", "/api/status"),
        ("GET", "/api/hello"),
        ("POST", "/"),
        ("GET", "/unknown"),
    ];
    for (method, path) in cases {
        let response = handle_request(method, path);
        assert_eq!(
            header_value(&response, "access-control-allow-origin"),
            Some("*"),
            "missing CORS header for {} {}",
            method,
            path
        );
        assert_eq!(
            header_value(&response, "access-control-allow-methods"),
            Some("GET, POST, PUT, DELETE")
        );
        assert_eq!(
            header_value(&response, "access-control-allow-headers"),
            Some("content-type")
        );
    }
}

#[test]
fn test_repeated_requests_identical() {
    let first = respond("GET", "/", "2024-01-01T00:00:00+00:00");
    let second = respond("GET", "/", "2024-01-01T00:00:00+00:00");
    assert_eq!(first.body, second.body);
    assert_eq!(first.status, second.status);

    let status_first = handle_request("GET", "/api/status");
    let status_second = handle_request("GET", "/api/status");
    assert_eq!(status_first.body, status_second.body);

    let hello_first = handle_request("GET", "/api/hello");
    let hello_second = handle_request("GET", "/api/hello");
    let a: serde_json::Value = serde_json::from_str(&hello_first.body).unwrap();
    let b: serde_json::Value = serde_json::from_str(&hello_second.body).unwrap();
    assert_eq!(a["message"], b["message"]);
    assert_eq!(a["status"], b["status"]);
    assert_eq!(hello_first.status, hello_second.status);
}
