//! An IoT insurance-monitoring engine: energy-generation devices report
//! periodic telemetry; the engine validates readings, keeps a bounded rolling
//! history per device, derives operational status and a discretized risk
//! level from the raw electrical measurements, and signals when sustained
//! underperformance should surface as a claim-worthy event.
//!
//! The engine is a value: every operation is a whole-record read-modify-write
//! on explicit state, and the current time is an argument, so the engine can
//! be driven and tested without any host environment.

pub mod device;
pub mod errors;
pub mod oracle;
pub mod policy;
pub mod telemetry;
