//! Decision and text-processing core of an Envoy external authorization
//! service for Cloudflare Zero Trust.
pub mod discovery;
pub mod health;
pub mod request;
pub mod schema;
pub mod health_server;
pub mod server;
pub mod sockets;
pub mod sync;
pub mod text;
