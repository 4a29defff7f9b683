//! A minimal verified request/response server core.
//!
//! The library holds the transport-and-dispatch layer of a small TCP
//! service: byte-stream framing of inbound requests, decoding of the
//! framed payload into a structured call, the per-connection step
//! machine, deadline resolution for the application handler, and the
//! assembly of the outbound HTTP-framed response.  Socket I/O, the
//! asynchronous runtime and the storage engine live outside the
//! library and drive it through the functions exported here.

pub mod db;
pub mod framing;
pub mod methods;
pub mod request;
pub mod service;
