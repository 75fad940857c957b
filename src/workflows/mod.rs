//! Renaming workflows: each turns its parameters into a changeset.

pub mod rename_module;
pub mod rename_plugin;
pub mod rename_project;
pub mod rename_target;
