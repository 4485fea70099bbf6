//! A small HTTP server toolkit: an exact-match method/path router, a
//! composable middleware chain, and the server side of the WebSocket
//! opening handshake.
//!
//! The asynchronous transport (socket accept loop, TLS termination,
//! HTTP/1.1 framing, WebSocket frame I/O) lives outside this crate; the
//! routing, composition and handshake logic here is written against plain
//! values and verified.

pub mod error;
pub mod extractor;
pub mod http_request;
pub mod middleware;
pub mod response;
pub mod router;
pub mod server;
pub mod service;
pub mod ws;

pub use error::Error;
pub use extractor::{FromBody, FromRequest, Json};
pub use http_request::{Method, Request, RequestParts};
pub use middleware::{ArcLayer, Layer, LogLayer, Stack};
pub use response::Response;
pub use router::{Handler, Router};
pub use server::Server;
pub use service::{service_fn, Service, ServiceFn};
pub use ws::{CloseFrame, Message};
