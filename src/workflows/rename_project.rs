//! Renaming a project: its descriptor, its root directory, and the names
//! recorded in its configuration.

use vstd::prelude::*;
use crate::change::{Change, RenameFile, SetIniEntry};
use crate::paths::{join, joined, with_extension, with_extension_of, with_file_name, with_file_name_of};

verus! {

/// Params needed to rename an Unreal Engine project.
pub struct Params {
    /// The root of the project.
    pub project_root: String,
    /// The new name for the project.
    pub new_name: String,
    /// Enable verbose logging.
    pub verbose: bool,
}

/// Context needed to rename an Unreal Engine project.
pub struct Context {
    /// The root of the project.
    pub project_root: String,
    /// The current name of the project.
    pub project_name: String,
    /// The new name for the project.
    pub new_name: String,
}

pub open spec fn is_set_ini(c: Change, path: Seq<char>, section: Seq<char>, key: Seq<char>, value: Seq<char>) -> bool {
    c matches Change::SetIniEntry(e) && e.path@ == path && e.section@ == section && e.key@ == key
        && e.value@ == value
}

pub open spec fn is_rename(c: Change, from: Seq<char>, to: Seq<char>) -> bool {
    c matches Change::RenameFile(e) && e.from@ == from && e.to@ == to
}

/// Generate a changeset to rename an Unreal Engine project: the new name is
/// recorded as `GameName` in the engine configuration and as `ProjectName`
/// in the game configuration, then the descriptor and the root directory are
/// renamed.
pub fn generate_changeset(context: &Context) -> (r: Vec<Change>)
    ensures
        r@.len() == 4,
        is_set_ini(
            r@[0],
            joined(context.project_root@, "Config/DefaultEngine.ini"@),
            "URL"@,
            "GameName"@,
            context.new_name@,
        ),
        is_set_ini(
            r@[1],
            joined(context.project_root@, "Config/DefaultGame.ini"@),
            "/Script/EngineSettings.GeneralProjectSettings"@,
            "ProjectName"@,
            context.new_name@,
        ),
        is_rename(
            r@[2],
            with_extension_of(joined(context.project_root@, context.project_name@), "uproject"@),
            with_extension_of(joined(context.project_root@, context.new_name@), "uproject"@),
        ),
        is_rename(
            r@[3],
            context.project_root@,
            with_file_name_of(context.project_root@, context.new_name@),
        ),
{
    let root = context.project_root.as_str();
    let change1 = add_game_name_to_engine_config(root, context.new_name.as_str());
    let change2 = add_project_name_to_game_config(root, context.new_name.as_str());
    let change3 = rename_project_descriptor(root, context.project_name.as_str(), context.new_name.as_str());
    let change4 = rename_project_root(root, context.new_name.as_str());
    vec![change1, change2, change3, change4]
}

fn rename_project_descriptor(project_root: &str, old_name: &str, new_name: &str) -> (r: Change)
    ensures
        is_rename(
            r,
            with_extension_of(joined(project_root@, old_name@), "uproject"@),
            with_extension_of(joined(project_root@, new_name@), "uproject"@),
        ),
{
    proof {
        reveal_strlit("uproject");
    }
    let from = with_extension(join(project_root, old_name).as_str(), "uproject");
    let to = with_extension(join(project_root, new_name).as_str(), "uproject");
    Change::RenameFile(RenameFile::new(from, to))
}

fn add_game_name_to_engine_config(project_root: &str, new_name: &str) -> (r: Change)
    ensures
        is_set_ini(r, joined(project_root@, "Config/DefaultEngine.ini"@), "URL"@, "GameName"@, new_name@),
{
    Change::SetIniEntry(
        SetIniEntry::new(
            join(project_root, "Config/DefaultEngine.ini"),
            "URL".to_owned(),
            "GameName".to_owned(),
            new_name.to_owned(),
        ),
    )
}

fn add_project_name_to_game_config(project_root: &str, new_name: &str) -> (r: Change)
    ensures
        is_set_ini(
            r,
            joined(project_root@, "Config/DefaultGame.ini"@),
            "/Script/EngineSettings.GeneralProjectSettings"@,
            "ProjectName"@,
            new_name@,
        ),
{
    Change::SetIniEntry(
        SetIniEntry::new(
            join(project_root, "Config/DefaultGame.ini"),
            "/Script/EngineSettings.GeneralProjectSettings".to_owned(),
            "ProjectName".to_owned(),
            new_name.to_owned(),
        ),
    )
}

fn rename_project_root(project_root: &str, new_name: &str) -> (r: Change)
    ensures
        is_rename(r, project_root@, with_file_name_of(project_root@, new_name@)),
{
    Change::RenameFile(RenameFile::new(project_root.to_owned(), with_file_name(project_root, new_name)))
}

} // verus!
