//! A minimal HTTP liveness-check library.
//!
//! The library models the whole behaviour of a one-route health-check
//! server: the fixed route table (exactly one entry, `GET /health_check`),
//! the dispatch of a request against that table, the constant success
//! response the handler produces, and the single construction-time
//! failure mode (the listening socket could not be attached).
//!
//! Everything that touches the network — the socket, the accept loop,
//! the HTTP framing — lives outside this crate; the library receives
//! plain request values and the plain outcome of the socket attachment,
//! and decides everything else.

pub mod http;
pub mod server;
