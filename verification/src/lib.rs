//! Record model and scenario planning for a write-latency micro-benchmark
//! over a document store.
//!
//! The library defines three synthetic record shapes of increasing size
//! (`Small`, `Medium`, `Large`), generates randomized instances of them with
//! fresh `<table>:<key>` identifiers, and produces the schema-definition
//! statements and per-iteration update plans that a driver issues against an
//! external store.

pub mod driver;
mod entropy;
pub mod ident;
pub mod records;
