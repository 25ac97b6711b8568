//! Structured JSON log records for a cloud logging backend, with
//! distributed-trace correlation resolved over nested execution scopes.
//!
//! A scope may carry a `trace_id` attribute; the [`tracker::ScopeTracker`]
//! remembers it for the scope's lifetime. When an event fires, the
//! [`layer::GcpLayer`] walks the chain of active scopes from root to leaf,
//! takes the innermost attached trace identifier, and renders a single-line
//! JSON record with severity, message, timestamp, trace reference and
//! source location.

pub mod config;
pub mod digits;
pub mod fields;
pub mod json;
pub mod layer;
pub mod record;
pub mod resolve;
pub mod severity;
pub mod tracker;

pub use config::Config;
pub use layer::{EventData, GcpLayer};
pub use record::{LogRecord, SourceLocation};
pub use severity::Severity;
pub use tracker::ScopeTracker;
