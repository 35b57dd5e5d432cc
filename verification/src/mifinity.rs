//! The Mifinity connector: wire DTOs and per-flow transformers.

pub mod transformers;
