//! A project scaffolder: given a project name, it plans a new project
//! directory, delegates base-package creation to an external init command,
//! and fills the directory with a fixed catalog of template files plus a
//! generated package manifest.
//!
//! This crate holds the verified core: the template catalog, the manifest
//! builder, the materialization plan, and the step-by-step init flow. The
//! surrounding binary performs the filesystem writes and runs the external
//! command, driving the flow one step at a time.

pub mod controllers;
pub mod flow;
pub mod manifest;
pub mod models;
pub mod plan;
pub mod templates;
pub mod text;
pub mod utils;
pub mod views;
