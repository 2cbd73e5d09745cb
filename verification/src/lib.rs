//! Passive PTPv1 clock discipline engine for Dante audio networks.
//!
//! The crate contains the verified core of a daemon that listens to a Dante
//! grandmaster's PTPv1 Sync/FollowUp multicast, extracts the sub-second phase
//! offset between the grandmaster and the local wallclock, and drives a PI
//! servo whose output disciplines the OS clock. Socket I/O, the system calls
//! that actually adjust the clock, and the SNTP query live outside the crate;
//! everything here works on plain values and is specified by contracts.

pub mod clock;
pub mod config;
pub mod controller;
pub mod net;
pub mod ntp;
pub mod pairer;
pub mod ptp;
pub mod servo;
pub mod ntp_server;
pub mod status;
pub mod time_server;
