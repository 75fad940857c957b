//! The command line: what the user asked for, as plain values.

use vstd::prelude::*;
use crate::workflows::{rename_module, rename_plugin, rename_project, rename_target};

verus! {

/// The parsed command line.
pub struct Cli {
    pub command: Option<Command>,
    /// Enable verbose logging to see detailed operation information.
    pub verbose: bool,
}

/// The subcommands.
pub enum Command {
    /// Rename an Unreal Engine project
    RenameProject(RenameProject),
    /// Rename an Unreal Engine project plugin
    RenamePlugin(RenamePlugin),
    /// Rename an Unreal Engine project target
    RenameTarget(RenameTarget),
    /// Rename an Unreal Engine project module
    RenameModule(RenameModule),
    /// Start an interactive session
    Wizard,
}

pub struct RenameProject {
    /// Path to the project to rename
    pub project: String,
    /// New name for the project
    pub new_name: String,
}

impl RenameProject {
    pub fn into_params(self, verbose: bool) -> (r: rename_project::Params)
        ensures
            r.project_root == self.project,
            r.new_name == self.new_name,
            r.verbose == verbose,
    {
        rename_project::Params { project_root: self.project, new_name: self.new_name, verbose }
    }
}

pub struct RenamePlugin {
    /// Path to the project that the plugin is part of
    pub project: String,
    /// Plugin in the project to rename
    pub plugin: String,
    /// New name for the plugin
    pub new_name: String,
}

impl RenamePlugin {
    pub fn into_params(self, verbose: bool) -> (r: rename_plugin::Params)
        ensures
            r.project_root == self.project,
            r.plugin == self.plugin,
            r.new_name == self.new_name,
            r.verbose == verbose,
    {
        rename_plugin::Params {
            project_root: self.project,
            plugin: self.plugin,
            new_name: self.new_name,
            verbose,
        }
    }
}

pub struct RenameTarget {
    /// Path to the project that the target is part of
    pub project: String,
    /// Target in the project to rename
    pub target: String,
    /// New name for the target
    pub new_name: String,
}

impl RenameTarget {
    pub fn into_params(self, verbose: bool) -> (r: rename_target::Params)
        ensures
            r.project_root == self.project,
            r.target == self.target,
            r.new_name == self.new_name,
            r.verbose == verbose,
    {
        rename_target::Params {
            project_root: self.project,
            target: self.target,
            new_name: self.new_name,
            verbose,
        }
    }
}

pub struct RenameModule {
    /// Path to the project that the module is part of
    pub project: String,
    /// Module in the project to rename
    pub module: String,
    /// New name for the module
    pub new_name: String,
}

impl RenameModule {
    pub fn into_params(self, verbose: bool) -> (r: rename_module::Params)
        ensures
            r.project_root == self.project,
            r.module == self.module,
            r.new_name == self.new_name,
            r.verbose == verbose,
    {
        rename_module::Params {
            project_root: self.project,
            module: self.module,
            new_name: self.new_name,
            verbose,
        }
    }
}

} // verus!
