//! Resource enforcement and execution-backend selection for an OCI container
//! runtime: controller properties, CPU-set parsing and the libkrun backend.
pub mod controller;
pub mod cpu_affinity;
pub mod executor;
pub mod libkrun;
pub mod pids;
pub mod ps;
pub mod runtime;
pub mod text;
