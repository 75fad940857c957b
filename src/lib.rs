//! Transactional file changes: an ordered list of changes is applied to a
//! project tree, each successful application records how to undo it, and the
//! recorded history can be replayed backwards to restore the tree.

pub mod digest;
pub mod paths;
pub mod pattern;
pub mod ini_edit;
pub mod change;
pub mod engine;
pub mod unreal;
pub mod workflows;
pub mod cli;
