//! Verified core of a PC benchmark grader: benchmark profiles, the run
//! control state machine, the workload catalogue and suite planning, the
//! community-sharing rules and local-history ordering.

pub mod benchmarks;
pub mod community;
pub mod control;
pub mod hardware;
pub mod history;
pub mod models;
pub mod scoring;
pub mod text;
