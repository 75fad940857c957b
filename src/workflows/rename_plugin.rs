//! Renaming a plugin of a project.

use vstd::prelude::*;

verus! {

/// Params needed to rename an Unreal Engine plugin.
pub struct Params {
    /// The root of the project.
    pub project_root: String,
    /// The specific plugin to rename.
    pub plugin: String,
    /// The new name for the plugin.
    pub new_name: String,
    /// Enable verbose logging.
    pub verbose: bool,
}

} // verus!
