//! The generic strategy: paths and volumes, with hooks before and after.

use crate::config::types::{Config, ResolvedServiceConfig};
use crate::managers::backup::{
    start_spec, ExecutionError, ExecutionErrorView, ServiceRun, ServiceRunView,
};
use crate::strategies::BackupStrategy;
use vstd::prelude::*;

verus! {

/// Backs up the paths and the volumes of a service.
#[derive(Debug)]
pub struct GenericStrategy;

impl GenericStrategy {
    pub fn new() -> (r: Self) {
        GenericStrategy
    }
}

impl BackupStrategy for GenericStrategy {
    /// The run of the protocol for the service.
    fn backup(&self, service: &ResolvedServiceConfig, config: &Config, notify: bool) -> (r: Result<
        ServiceRun,
        ExecutionError,
    >)
        ensures
            match r {
                Ok(run) => start_spec(service@, config@, notify) == Ok::<
                    ServiceRunView,
                    ExecutionErrorView,
                >(run@),
                Err(e) => start_spec(service@, config@, notify) == Err::<
                    ServiceRunView,
                    ExecutionErrorView,
                >(e@),
            },
    {
        ServiceRun::start(service, config, notify)
    }

    fn name(&self) -> (r: &'static str)
        ensures
            r@ == "generic"@,
    {
        "generic"
    }
}

} // verus!
