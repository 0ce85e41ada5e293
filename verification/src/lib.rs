//! Deployment orchestration core of a command-line tool that publishes a
//! worker script to a cloud platform and manages the local credentials used
//! to authenticate to it.
//!
//! The crate holds the verified logic: layered credential resolution, the
//! config-file writer's contents, manifest validation, the publish pipeline's
//! state machine, and the default-project-name sequencer. File, environment
//! and network access stay outside; callers hand plain values in and perform
//! the actions the pipeline asks for.

pub mod config;
pub mod generate;
pub mod global_user;
pub mod publish;
pub mod text;
