//! Verified core of a periodic host-telemetry sampler.
//!
//! The library discovers and filters physical network interfaces, derives
//! display-ready metrics (RAM percentage, per-window network rates, thermal
//! sensor selection, UPS temperature extraction, GPU readings) from raw
//! counters, and drives the per-cycle sampling orchestration.  Reading the
//! operating system itself happens through narrow adapters around the
//! `sysinfo` and `nvml_wrapper` crates; every derivation on the values they
//! hand back is verified.

pub mod config;
pub mod interfaces;
pub mod metrics;
pub mod sampler;
pub mod thermal;
pub mod ups;
