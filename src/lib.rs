//! Process sandbox and watchdog: the decisions of a launch-monitor-reap
//! pipeline, stated and proved over plain values.

pub mod usage;
pub mod verdict;
pub mod wait_status;
pub mod request;
pub mod watchdog;
pub mod text;
pub mod hardening;
pub mod cli;
