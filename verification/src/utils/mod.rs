//! Adapters around the external collaborators.

pub mod command;
pub mod cron;
pub mod docker;
pub mod docker_ops;
pub mod executor;
pub mod host;
pub mod json;
pub mod locker;
pub mod paths;
pub mod restic;
pub mod restic_installer;
pub mod restic_ops;
pub mod time;
