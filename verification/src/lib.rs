//! QR-code login flow client logic.
//!
//! A login attempt runs in two steps against a remote passport service:
//! first a QR code is requested (yielding a login page URL and an opaque
//! poll key), then a status endpoint is polled with that key until the
//! user confirms the login in a mobile app, at which point a session
//! cookie carrying the CSRF token is captured.
//!
//! This crate holds the protocol logic of that flow: decoding the two
//! response bodies, looking up the session cookie, and mapping the
//! server's status code to a typed outcome. The transport (issuing the
//! HTTP requests) is supplied by the caller.

pub mod cookies;
pub mod json;
pub mod qrcode;

pub use cookies::find_cookie;
pub use cookies::find_csrf_cookie;
pub use cookies::CSRF_COOKIE;
pub use qrcode::classify_poll;
pub use qrcode::decode_generate_response;
pub use qrcode::decode_poll_response;
pub use qrcode::generate_url;
pub use qrcode::poll_url;
pub use qrcode::ProtocolViolation;
pub use qrcode::QrError;
pub use qrcode::QrGenResponse;
pub use qrcode::QrScanStatus;
