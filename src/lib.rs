//! Controller for redirect-based authentication flows.
//!
//! An authorization URL is shown in a browsing surface; every navigation
//! inside that surface is observed, and the flow resolves exactly once with
//! the redirect URL that carries the callback scheme, or with an error.
//!
//! The decisions of the flow live here and are verified: which navigation
//! ends the flow, what is delivered, that a result is delivered at most once,
//! how native completion signals and header fields are turned into results,
//! and how the suspending adapter settles.
use vstd::prelude::*;

pub mod adapter;
pub mod completion;
pub mod error;
pub mod flow;
pub mod headers;
pub mod interceptor;
pub mod options;
pub mod redirect;
pub mod session;

pub use error::Error;
pub use options::WebAuthOptions;
