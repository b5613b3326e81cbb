//! The execution coordinator, the notifier and the logging settings.

pub mod backup;
pub mod laws;
pub mod logging;
pub mod notification;
pub mod status;
