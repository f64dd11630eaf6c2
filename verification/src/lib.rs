//! Verified core of the TES3MP server runner: log classification and
//! colouring, server configuration parsing, master-server listing lookup,
//! process planning and the decision logic of the runner's supervision loops.

pub mod pattern;
pub mod logging;
pub mod text;
pub mod config;
pub mod master;
pub mod runner;
pub mod public_ip;
pub mod shutdown;
