//! Decision core of a supervisor that owns the lifecycle of one containerised
//! application: when the next backup or update is due, which command line
//! each external tool receives, how a child process is retired, and what the
//! control loop does on each event.
//!
//! The decisions work on plain values. The surrounding program spawns the
//! processes, sleeps and reads the clock, and reports what happened as
//! events; calendar arithmetic, cron schedules, time zones and the shutdown
//! coordinator come from the crates that provide them.

pub mod time;
pub mod schedule;
pub mod text;
pub mod config;
pub mod command;
pub mod shutdown;
pub mod process;
pub mod workflow;
pub mod orchestration;
