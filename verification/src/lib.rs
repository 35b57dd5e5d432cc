//! A connector integration adapter: canonical payment flows, per-connector
//! wire formats, and status/error normalization, with verified contracts.
//!
//! The crate is organised the way the running system is layered: canonical
//! enumerations and error shapes at the bottom, the generic per-call envelope
//! above them, a small JSON framing layer for the connectors' wire formats,
//! and one module per connector holding its transformers and its integration
//! hooks.

pub mod codec;
pub mod enums;
pub mod errors;
pub mod headers;
pub mod mifinity;
pub mod payu;
pub mod masked;
pub mod services;
pub mod types;
pub mod wire;
