//! Configuration-driven composition layer for an HTTP server.
//!
//! The crate validates a typed configuration, decides which request-processing
//! middleware to apply and in which order, and wraps a caller-supplied router
//! into a server handle. Route handling, file transfer and template-language
//! semantics are delegated to outside crates; this crate owns the decisions:
//! whether a layer is applied, in what order, and with which policy.

pub mod builder;
pub mod config;
pub mod error;
pub mod ext;
pub mod middleware;
pub mod server;
pub mod templates;

pub use builder::WebServerBuilder;
pub use config::Config;
pub use error::Error;
pub use server::WebServer;
