//! Marshalling between an embedded script engine and a host value model,
//! and the supervisor that bounds and recovers script execution.
pub mod conversion;
pub mod runtime;
pub mod value;
