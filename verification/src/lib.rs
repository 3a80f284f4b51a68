//! A small core for request handling: an adapter that turns any callable
//! from a request to a future response into a [`Service`], and a registry
//! that keeps such adapters under string keys.
//!
//! The crate does no networking, buffering or scheduling. It fixes what a
//! handler is, and the contracts in it say what may be relied on: an adapter
//! forwards each request to its callable and hands back the callable's own
//! future, and a registry answers a lookup with the adapter that was last
//! registered under the key.

pub mod adapter;
pub mod body;
pub mod error;
pub mod format;
pub mod message;
pub mod registry;
pub mod service;

pub use adapter::{service_fn, ServiceFn};
pub use body::Body;
pub use error::{unified, unify_error};
pub use message::{Request, Response};
pub use registry::ServiceFns;
pub use service::Service;
