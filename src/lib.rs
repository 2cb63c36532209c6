//! Endpoint synthesis for server hooks: the decisions behind turning one
//! annotated business function into a server handler, a client caller and a
//! reactive client hook, plus the per-request context store.
pub mod text;
pub mod method;
pub mod context;
pub mod signature;
pub mod args;
pub mod handler;
pub mod hook;
pub mod client;
pub mod plan;
