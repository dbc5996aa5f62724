//! The decision core of a host-routing reverse proxy: request classification,
//! outbound header rewriting, configuration values and the reload and TLS
//! acceptance state machines, each with a machine-checked contract.

pub mod acceptor;
pub mod config;
pub mod error;
pub mod headers;
pub mod pem;
pub mod pattern;
pub mod proxy;
pub mod reload;
pub mod text;
pub mod values;
