//! Policy-driven backup orchestration: configuration resolution, the
//! per-service execution protocol, service locks and the notifier.

pub mod config;
pub mod fixtures;
pub mod managers;
pub mod name_map;
pub mod strategies;
pub mod text;
pub mod utils;
