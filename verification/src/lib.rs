//! A tmux plugin manager's decision core: what to run, in which order, and
//! what each result means. Nothing here spawns a process or touches the
//! file system; callers perform those steps and hand the results back.

pub mod cleanup;
pub mod config;
pub mod error;
pub mod git;
pub mod install;
pub mod murus;
pub mod plugin;
pub mod process;
pub mod report;
pub mod run;
pub mod source;
pub mod text;

pub use crate::plugin::{PluginSpecFile, DEFAULT_PLUGINS_PATH, DEFAULT_SPEC_PATH};
