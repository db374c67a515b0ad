use rust_api::ApiResponse;
use rust_api::StatusResponse;
use rust_api::hello;
use rust_api::status;
use rust_api::welcome;

#[test]
fn test_api_response_structure() {
    let response = ApiResponse {
        message: "テストメッセージ".to_string(),
        status: "success".to_string(),
        timestamp: "2024-01-01T00:00:00Z".to_string(),
    };

    assert_eq!(response.message, "テストメッセージ");
    assert_eq!(response.status, "success");
}

#[test]
fn test_status_response_structure() {
    let response = StatusResponse {
        service: "rust-api".to_string(),
        version: "0.1.0".to_string(),
        status: "正常稼働中".to_string(),
        message: "テスト中".to_string(),
    };

    assert_eq!(response.service, "rust-api");
    assert_eq!(response.status, "正常稼働中");
}

#[test]
fn test_welcome_message() {
    let response = welcome();
    assert_eq!(response.status, "success");
    assert!(!response.message.is_empty());
    assert!(!response.timestamp.is_empty());
}

#[test]
fn test_status_endpoint() {
    let response = status();
    assert_eq!(response.service, "rust-api");
    assert_eq!(response.version, "0.1.0");
}

#[test]
fn test_hello_endpoint() {
    let response = hello();
    assert_eq!(response.status, "success");
    assert!(!response.message.is_empty());
    assert!(!response.timestamp.is_empty());
}
