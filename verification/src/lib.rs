//! Scaffolding engine for new Zsh plugin projects.
//!
//! The crate validates a plugin name, reconciles a preset with individual
//! feature toggles into one coherent configuration, projects that
//! configuration into a template-variable context, and lays out the fixed,
//! dependency-ordered plan of directory-creation, version-control and
//! template-rendering steps that a thin driver executes against the
//! filesystem.

pub mod command;
pub mod config;
pub mod context;
pub mod error;
pub mod name;
pub mod plan;
pub mod render;
pub mod strings;
