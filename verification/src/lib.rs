//! A small HTTP API service core: typed request handlers, a closed error
//! taxonomy mapped to HTTP status codes and JSON bodies, and the decision
//! logic of the middleware chain (request logging and admin API-key checks).
//!
//! Everything here is pure request-to-response logic over plain values; the
//! surrounding binary performs the actual I/O (sockets, database calls,
//! environment) and feeds the outcomes into these functions.

pub mod config;
pub mod errors;
pub mod item;
pub mod json;
pub mod middleware;
pub mod models;
pub mod route;
pub mod text;
pub mod user;

use vstd::prelude::*;

verus! {

/// The static greeting of the root route.
pub fn root_greeting() -> (r: &'static str)
    ensures
        r@ == "hello, Rust!"@,
{
    "hello, Rust!"
}

} // verus!
