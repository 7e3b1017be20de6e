//! Core of a minimal HTTP service: a static router over a fixed route table,
//! pure request handlers, a bounded backend connection-pool model, and the
//! strictly ordered startup sequence. The surrounding process (sockets,
//! logging, the actual backend driver) lives outside this crate and hands
//! plain values in and out.

pub mod handlers;
pub mod http;
pub mod pool;
pub mod router;
pub mod server;
pub mod startup;
