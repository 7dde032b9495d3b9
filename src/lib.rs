//! A watchdog's decisions: whether the routing table still holds the routes a
//! routing daemon installs, and when to restart that daemon and when to pause.
//! Running the commands, logging and sleeping are left to the caller.

pub mod config;
pub mod inspect;
pub mod schedule;
