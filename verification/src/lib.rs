//! A small diagnostic HTTP service core: a togglable process-wide health
//! flag, an incremental request-body accumulator with graceful handling of
//! malformed text, a per-request diagnostic snapshot of request metadata and
//! environment, and the routing and response rules of the service's HTTP
//! surface. Transport, logging and process bootstrap live outside the
//! library and hand it plain values.

pub mod body;
pub mod config;
pub mod health;
pub mod page;
pub mod route;
pub mod snapshot;
