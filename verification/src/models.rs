//! The two response shapes the service returns, and the handlers that
//! build them.
//!
//! Every field value except the timestamp is a fixed literal; the spec
//! functions below name each one, so contracts elsewhere can speak of them.

use vstd::prelude::*;
use vstd::string::StringExecFns;

use crate::clock;

verus! {

/// The generic response envelope: a message, a status literal, and the
/// moment the response was built.
pub struct ApiResponse {
    pub message: String,
    pub status: String,
    pub timestamp: String,
}

/// The status endpoint's envelope: service identity and health text.
pub struct StatusResponse {
    pub service: String,
    pub version: String,
    pub status: String,
    pub message: String,
}

/// The welcome text served at the root route.
pub open spec fn welcome_message() -> Seq<char> {
    "Rust APIサーバーへようこそ！日本語をサポートしています。"@
}

/// The greeting text served at the hello route.
pub open spec fn hello_message() -> Seq<char> {
    "こんにちは！Rustで作られたAPIです。"@
}

/// The fixed status literal of every envelope response.
pub open spec fn success_status() -> Seq<char> {
    "success"@
}

/// The service's name, as reported by the status route.
pub open spec fn service_name() -> Seq<char> {
    "rust-api"@
}

/// The service's version, as reported by the status route.
pub open spec fn service_version() -> Seq<char> {
    "0.1.0"@
}

/// The health literal of the status response.
pub open spec fn operational_status() -> Seq<char> {
    "正常稼働中"@
}

/// The explanatory text of the status response.
pub open spec fn operational_message() -> Seq<char> {
    "すべてのシステムが正常に動作しています"@
}

/// Builds the welcome envelope for a given timestamp.
pub fn welcome_at(timestamp: String) -> (r: ApiResponse)
    ensures
        r.message@ == welcome_message(),
        r.status@ == success_status(),
        r.timestamp@ == timestamp@,
        r.message@.len() > 0,
{
    proof {
        reveal_strlit("Rust APIサーバーへようこそ！日本語をサポートしています。");
    }
    ApiResponse {
        message: String::from_str("Rust APIサーバーへようこそ！日本語をサポートしています。"),
        status: String::from_str("success"),
        timestamp,
    }
}

/// Builds the greeting envelope for a given timestamp.
pub fn hello_at(timestamp: String) -> (r: ApiResponse)
    ensures
        r.message@ == hello_message(),
        r.status@ == success_status(),
        r.timestamp@ == timestamp@,
        r.message@.len() > 0,
{
    proof {
        reveal_strlit("こんにちは！Rustで作られたAPIです。");
    }
    ApiResponse {
        message: String::from_str("こんにちは！Rustで作られたAPIです。"),
        status: String::from_str("success"),
        timestamp,
    }
}

/// The root handler: the welcome envelope, stamped with the current instant.
pub fn welcome() -> (r: ApiResponse)
    ensures
        r.message@ == welcome_message(),
        r.status@ == success_status(),
        r.message@.len() > 0,
        r.timestamp@.len() > 0,
{
    welcome_at(clock::now_rfc3339())
}

/// The status handler: fixed service identity and health text.
pub fn status() -> (r: StatusResponse)
    ensures
        r.service@ == service_name(),
        r.version@ == service_version(),
        r.status@ == operational_status(),
        r.message@ == operational_message(),
{
    StatusResponse {
        service: String::from_str("rust-api"),
        version: String::from_str("0.1.0"),
        status: String::from_str("正常稼働中"),
        message: String::from_str("すべてのシステムが正常に動作しています"),
    }
}

/// The hello handler: the greeting envelope, stamped with the current instant.
pub fn hello() -> (r: ApiResponse)
    ensures
        r.message@ == hello_message(),
        r.status@ == success_status(),
        r.message@.len() > 0,
        r.timestamp@.len() > 0,
{
    hello_at(clock::now_rfc3339())
}

} // verus!
