//! Planning and sequencing of a reference-index build, and the command
//! lines of the engines that do the work.
//!
//! The library decides; its caller performs. Every function here works on
//! plain values: the caller looks at the file system, runs the engines and
//! hands back what it saw. What the library decides is stated in contracts
//! and proved.
//!
//! - [`request`]: a build request and the rules that it must meet.
//! - [`artifacts`]: the paths of the files of a build.
//! - [`argv`]: the command line of each build stage.
//! - [`pipeline`]: the build as a machine that is stepped by events.
//! - [`laws`]: what holds of every run of that machine.
//! - [`manifest`]: the version manifest of a finished build.
//! - [`mapping`]: the command lines of the read mappers.
//! - [`platform`]: what the machine and its path syntax are asked.
//! - [`klen`], [`text`], [`messages`], [`stage`], [`error`]: what the others
//!   are made of.

pub mod argv;
pub mod artifacts;
pub mod error;
pub mod klen;
pub mod laws;
pub mod manifest;
pub mod mapping;
pub mod messages;
pub mod pipeline;
pub mod platform;
pub mod request;
pub mod stage;
pub mod text;
