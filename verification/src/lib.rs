//! A service supervisor library: the configuration model, the per-service
//! state machine, restart-policy decisions, health-check scheduling, and
//! the ordered graceful shutdown of locally spawned child processes — with
//! the process-control boundary behind a capability trait, so the
//! supervision logic runs equally against the operating system or against
//! a scriptable in-memory controller.

pub mod config;
pub mod controller;
pub mod laws;
pub mod policy;
pub mod service;
pub mod settings;
pub mod strutil;
pub mod supervisor;
pub mod theme;
pub mod types;
pub mod utils;
