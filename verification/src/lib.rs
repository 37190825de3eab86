//! Request handling for an account and web-push notification service:
//! the decisions, response bodies, notification payloads and upload
//! destinations that the HTTP layer acts on.
pub mod anyhow_response_error;
pub mod handlers;
pub mod json;
pub mod reply;
