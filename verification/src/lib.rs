//! A minimal HTTP/1.1 listener core: a response serialiser, a single-route
//! router, a one-read request pipeline, startup configuration, and a TLS
//! credential builder. The socket work around it lives outside the library.

pub mod response;
pub mod config;
pub mod request;
pub mod router;
pub mod tls;
