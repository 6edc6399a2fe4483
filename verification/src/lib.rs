//! Session and catalog bridge for a blocking, message-oriented messaging engine.
//!
//! The crate holds the decisions of the bridge as plain state machines: the
//! correlation router that matches responses to callers, the session phases
//! driven by push notifications, the catalog mirror, paginated retrieval and
//! the resource identifiers that name what to fetch. Sending, receiving and
//! sleeping are left to the caller.

pub mod decimal;
pub mod json;
pub mod output;
pub mod resource;
pub mod telegram;
pub mod text;

pub use resource::{parse_fetch_url, parse_resource_url, FetchTarget, ResourceUrlError};
