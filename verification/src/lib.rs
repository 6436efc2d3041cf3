//! Core logic of a static-file handler: it maps the path of an HTTP request,
//! mounted under a configured prefix, to a relative path inside a sandboxed
//! directory, and maps the outcome of opening that path to an HTTP response.
//!
//! The handler itself performs no I/O. The host derives the relative path
//! with [`handler::ServeDir::requested_path`], opens it against the sandbox
//! root, and hands the outcome to [`handler::ServeDir::respond`], which
//! decides the response and the log events to emit.

pub mod handler;
pub mod laws;
pub mod log_event;
pub mod path;
pub mod response;

pub use handler::HandlerResult;
pub use handler::OpenOutcome;
pub use handler::ServeDir;
pub use log_event::LogEvent;
pub use log_event::LogLevel;
pub use response::Response;
pub use response::StatusCode;
