//! Synthetic monitoring: probes run on a schedule, their outcomes drive an
//! escalation ladder, and the ladder decides which reporters hear about it.

pub mod config;
pub mod db;
pub mod escalation;
pub mod monitor;
pub mod reporters;
pub mod target;
