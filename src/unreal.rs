//! Items of an Unreal Engine project.

use vstd::prelude::*;

verus! {

/// A build target of a project: its name and its `.Target.cs` file.
#[derive(Debug, PartialEq, Eq)]
pub struct Target {
    pub name: String,
    pub path: String,
}

impl Target {
    /// A copy of the target.
    pub fn duplicate(&self) -> (r: Target)
        ensures
            r.name@ == self.name@,
            r.path@ == self.path@,
    {
        Target { name: self.name.clone(), path: self.path.clone() }
    }
}

} // verus!
