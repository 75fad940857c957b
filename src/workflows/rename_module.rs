//! Renaming a module of a project.

use vstd::prelude::*;

verus! {

/// Params needed to rename an Unreal Engine module.
pub struct Params {
    /// The root of the project.
    pub project_root: String,
    /// The specific module to rename.
    pub module: String,
    /// The new name for the module.
    pub new_name: String,
    /// Enable verbose logging.
    pub verbose: bool,
}

} // verus!
