//! Error classification and wire translation for a distributed storage
//! backup subsystem.
//!
//! Internal operations fail with heterogeneous, engine-specific errors.
//! This crate normalizes every such failure into one closed taxonomy
//! ([`model::Error`]), translates each taxonomy member into exactly one
//! wire-level error shape ([`wire::WireError`]) together with a metrics
//! classification label ([`wire::Label`]), and offers a per-label failure
//! counter ([`metrics::LabelCounters`]) so operators can observe failure
//! composition.
//!
//! Translation is total (every taxonomy value produces a wire message,
//! never a panic), deterministic, and lossless for the structured shapes:
//! routing detail, lock-conflict detail and cluster identifiers are copied
//! verbatim.

pub mod metrics;
pub mod model;
pub mod translate;
pub mod wire;
