//! Typed request construction for a remote HTTP API: one builder per
//! endpoint, a closed route table, a transport-agnostic request descriptor,
//! the audit-reason header capability and a deferred dispatch handle.

pub mod audit;
pub mod channel;
pub mod error;
pub mod guild;
pub mod id;
pub mod laws;
pub mod request;
pub mod response;
pub mod routing;
pub mod text;
