//! Verified core of a small router operating system: configuration model,
//! init-process supervision, network reconciliation and message routing.

pub mod config;
pub mod initd;
pub mod config_tool;
pub mod search;
pub mod netconf;
pub mod nanobus;
