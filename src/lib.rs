//! A small user-record service: request framing, routing, identifier
//! extraction and the per-request decisions of each resource operation.
pub mod email;
pub mod model;
pub mod request;
pub mod dispatch;
pub mod laws;
pub mod table;
