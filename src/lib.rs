//! A client for a container engine daemon reached over a Unix socket.
//!
//! The verified part of the client builds every request target that is sent
//! to the daemon, encodes query parameters, fixes the negotiated API version
//! and checks the responses that come back. Sending bytes over the socket is
//! left to the caller.
pub mod endpoint;
pub mod text;
pub mod error;
pub mod container;
pub mod response;
pub mod client;
