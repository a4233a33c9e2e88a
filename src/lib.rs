//! Verified core of a device-aware TensorRT wrapper: decoding of native
//! enumerations and query results, build-option translation, and the
//! bookkeeping that decides when native handles are bound and released.
pub mod config;
pub mod engine;
pub mod error;
pub mod execution;
pub mod lifecycle;
pub mod profile;
