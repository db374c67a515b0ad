//! A small JSON web service: three fixed routes, a JSON envelope encoder,
//! CORS headers on every response, and an exact-match router.
//!
//! The library holds everything that decides or computes: route dispatch,
//! response construction, and JSON serialization. The surrounding binary
//! only binds a socket and forwards requests here.

mod clock;
pub mod json;
pub mod models;
pub mod router;
pub mod service;
pub mod text;

pub use models::ApiResponse;
pub use models::StatusResponse;
pub use models::hello;
pub use models::status;
pub use models::welcome;
pub use router::Dispatch;
pub use router::dispatch;
pub use service::HttpResponse;
pub use service::handle_request;
pub use service::respond;
pub use text::str_eq;
