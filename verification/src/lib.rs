//! The core of a small uptime monitor.
//!
//! A monitored target is probed at a fixed period. Each probe is reduced to a
//! status, the status is folded into the target's record together with the time
//! of the check, and the record is rendered as the JSON text of its status file.
//! The servers, the HTTP client and the timers live outside this library: it
//! decides, they perform.
//!
//! - [`clock`]: the wall clock in seconds.
//! - [`config`]: the port and the HTTPS flag.
//! - [`decimal`]: numbers as decimal text.
//! - [`json`]: the JSON text of a record.
//! - [`probe`]: from the outcome of a probe to a status.
//! - [`record`]: a target's record and how an observation changes it.
//! - [`server`]: the listeners of the servers, and the metrics page.
//! - [`status`]: the three health states.
//! - [`store`]: the status file of a record.
//! - [`task`]: the periodic task that watches one target.

pub mod clock;
pub mod config;
pub mod decimal;
pub mod json;
pub mod probe;
pub mod record;
pub mod server;
pub mod status;
pub mod store;
pub mod task;
