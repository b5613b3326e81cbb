//! The ways in which a service is backed up.

pub mod generic;

use crate::config::types::{Config, ResolvedServiceConfig};
use crate::managers::backup::{ExecutionError, ServiceRun};
use vstd::prelude::*;

verus! {

/// A way to back a service up.
pub trait BackupStrategy {
    /// The run that backs the service up, or why none can start.
    fn backup(&self, service: &ResolvedServiceConfig, config: &Config, notify: bool) -> (r: Result<
        ServiceRun,
        ExecutionError,
    >);

    /// The name of the strategy.
    fn name(&self) -> (r: &'static str);
}

} // verus!
