//! Per-target host discovery: the decisions of a reconnaissance run, with
//! every external command, file and terminal left to the caller.
//!
//! - [`pipeline`]: one target's discovery as a state machine.
//! - [`scan`]: reading the service scan's output into open ports.
//! - [`hosts`]: the hosts-file registration check and entry.
//! - [`tasks`]: the scans, their command lines and result files.
//! - [`target`], [`args`], [`setup`]: targets, operator, start-up checks.
//! - [`commands`], [`error`]: command descriptions and error texts.
//! - [`text`]: lines, trimming and substring search over characters.
pub mod args;
pub mod commands;
pub mod error;
pub mod hosts;
pub mod pipeline;
pub mod scan;
pub mod setup;
pub mod target;
pub mod tasks;
pub mod text;
