//! Short-circuiting rate limits for request pipelines.
//!
//! Every request belongs to a scope (a user, an API key, an address). For
//! each scope the limiter keeps a [`Bucket`]: the requests still allowed in
//! the current window and the instant the window closes. A request of a scope
//! that is not cooling down is counted and proceeds. A request of a scope that
//! is cooling down is handed to a [`RatelimitHandler`], which lets it pass or
//! answers it with a response of its own.
//!
//! Instants and durations are plain `u64` counts of nanoseconds. The caller
//! reads the clock and passes the reading in, so every function here is a
//! function of its arguments.

pub mod bucket;
pub mod decimal;
pub mod handler;
pub mod headers;
pub mod provider;

pub use crate::bucket::Bucket;
pub use crate::handler::{Admission, RatelimitHandler, ResponseTemplate, TooManyRequests};
pub use crate::headers::HeaderMapFull;
pub use crate::provider::{InvalidPolicy, RatelimitProvider};
