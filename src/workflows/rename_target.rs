//! Renaming a build target of a project: checking the request against what
//! the project holds, and the context the rename works in.

use vstd::prelude::*;
use crate::paths::{join, joined, with_extension, with_extension_of};
use crate::pattern::{matches_pattern, regex_accepts, regex_is_match_of};
use crate::unreal::Target;
use vstd::utf8::encode_utf8;

verus! {

/// Params needed to rename an Unreal Engine target.
pub struct Params {
    /// The root of the project.
    pub project_root: String,
    /// The specific target to rename.
    pub target: String,
    /// The new name for the target.
    pub new_name: String,
    /// Enable verbose logging.
    pub verbose: bool,
}

/// Context needed to rename an Unreal Engine target.
pub struct Context {
    /// The root of the project.
    pub project_root: String,
    /// Build targets for the project.
    pub project_targets: Vec<Target>,
    /// The specific target to rename.
    pub target: Target,
    /// The new name for the target.
    pub new_name: String,
}

/// What the filesystem says of a project root.
pub struct ProjectLayout {
    /// The root is a directory.
    pub root_is_dir: bool,
    /// The root holds a file with the `uproject` extension.
    pub has_descriptor: bool,
    /// The root holds a `Source` directory.
    pub has_source_dir: bool,
}

/// The longest new name accepted, in bytes.
pub const NEW_NAME_MAX_LEN: usize = 30;

/// Names made of ASCII letters, digits and underscores only.
pub const IDENTIFIER_PATTERN: &'static str = "^[_[[:alnum:]]]*$";

/// The suffix of the file names of build targets.
pub const TARGET_FILE_SUFFIX: &'static str = ".Target.cs";

/// Whether a character has the Unicode White_Space property.
pub open spec fn is_white_space(c: char) -> bool {
    let v = c as u32;
    (0x9 <= v <= 0xd) || v == 0x20 || v == 0x85 || v == 0xa0 || v == 0x1680 || (0x2000 <= v <= 0x200a)
        || v == 0x2028 || v == 0x2029 || v == 0x202f || v == 0x205f || v == 0x3000
}

/// The text without its leading white space.
pub open spec fn trim_start(text: Seq<char>) -> Seq<char>
    decreases text.len(),
{
    if text.len() > 0 && is_white_space(text[0]) {
        trim_start(text.drop_first())
    } else {
        text
    }
}

/// The text without its trailing white space.
pub open spec fn trim_end(text: Seq<char>) -> Seq<char>
    decreases text.len(),
{
    if text.len() > 0 && is_white_space(text.last()) {
        trim_end(text.drop_last())
    } else {
        text
    }
}

/// The text with leading and trailing white space removed.
pub open spec fn trimmed(text: Seq<char>) -> Seq<char> {
    trim_end(trim_start(text))
}

/// Relies on `str::trim`: leading and trailing characters with the Unicode
/// White_Space property removed.
#[verifier::external_body]
fn trim(text: &str) -> (r: &str)
    ensures
        r@ == trimmed(text@),
{
    text.trim()
}

pub open spec fn names_target(targets: Seq<Target>, name: Seq<char>) -> bool {
    exists|i: int| 0 <= i < targets.len() && #[trigger] targets[i].name@ == name
}

/// The first check that a request fails, with its message; `None` when it
/// passes them all.
pub open spec fn validation_error(params: Params, layout: ProjectLayout, targets: Seq<Target>) -> Option<Seq<char>> {
    if !layout.root_is_dir {
        Some("project root must be a directory"@)
    } else if !layout.has_descriptor {
        Some("project root must contain a project descriptor"@)
    } else if !layout.has_source_dir {
        Some("project root must contain a Source folder"@)
    } else if !names_target(targets, params.target@) {
        Some("target must be part of project"@)
    } else if trimmed(params.new_name@).len() == 0 {
        Some("new name must not be empty"@)
    } else if encode_utf8(params.new_name@).len() as usize > NEW_NAME_MAX_LEN {
        Some("new name must not be longer than 30 characters"@)
    } else if names_target(targets, params.new_name@) {
        Some("new name must not conflict with another target"@)
    } else if !(regex_accepts(IDENTIFIER_PATTERN@) && regex_is_match_of(IDENTIFIER_PATTERN@, params.new_name@)) {
        Some("new name must be comprised of alphanumeric characters and underscores only"@)
    } else {
        None
    }
}

/// Checks a rename request against the project: the first failing check
/// gives the error.
pub fn validate_params(params: &Params, layout: &ProjectLayout, targets: &Vec<Target>) -> (r: Result<(), String>)
    ensures
        match validation_error(*params, *layout, targets@) {
            None => r is Ok,
            Some(m) => r matches Err(e) && e@ == m,
        },
{
    validate_project_root_is_dir(layout.root_is_dir)?;
    validate_project_root_contains_project_descriptor(layout.has_descriptor)?;
    validate_project_root_contains_source_dir(layout.has_source_dir)?;
    validate_target_exists(params.target.as_str(), targets)?;
    validate_new_name_is_not_empty(params.new_name.as_str())?;
    validate_new_name_is_concise(params.new_name.as_str())?;
    validate_new_name_is_unique(params.new_name.as_str(), targets)?;
    validate_new_name_is_valid_identifier(params.new_name.as_str())?;
    Ok(())
}

fn validate_project_root_is_dir(is_dir: bool) -> (r: Result<(), String>)
    ensures
        r is Ok <==> is_dir,
        r matches Err(e) ==> e@ == "project root must be a directory"@,
{
    if is_dir {
        Ok(())
    } else {
        Err("project root must be a directory".to_owned())
    }
}

fn validate_project_root_contains_project_descriptor(has_descriptor: bool) -> (r: Result<(), String>)
    ensures
        r is Ok <==> has_descriptor,
        r matches Err(e) ==> e@ == "project root must contain a project descriptor"@,
{
    if has_descriptor {
        Ok(())
    } else {
        Err("project root must contain a project descriptor".to_owned())
    }
}

fn validate_project_root_contains_source_dir(has_source_dir: bool) -> (r: Result<(), String>)
    ensures
        r is Ok <==> has_source_dir,
        r matches Err(e) ==> e@ == "project root must contain a Source folder"@,
{
    if has_source_dir {
        Ok(())
    } else {
        Err("project root must contain a Source folder".to_owned())
    }
}

/// Whether some target has the given name.
fn has_target_named(name: &str, targets: &Vec<Target>) -> (r: bool)
    ensures
        r == names_target(targets@, name@),
{
    let wanted = name.to_owned();
    let mut i: usize = 0;
    while i < targets.len()
        invariant
            i <= targets@.len(),
            wanted@ == name@,
            forall|j: int| 0 <= j < i ==> #[trigger] targets@[j].name@ != name@,
        decreases targets@.len() - i,
    {
        if targets[i].name == wanted {
            return true;
        }
        i = i + 1;
    }
    false
}

fn validate_target_exists(target: &str, targets: &Vec<Target>) -> (r: Result<(), String>)
    ensures
        r is Ok <==> names_target(targets@, target@),
        r matches Err(e) ==> e@ == "target must be part of project"@,
{
    if has_target_named(target, targets) {
        Ok(())
    } else {
        Err("target must be part of project".to_owned())
    }
}

fn validate_new_name_is_not_empty(new_name: &str) -> (r: Result<(), String>)
    ensures
        r is Ok <==> trimmed(new_name@).len() != 0,
        r matches Err(e) ==> e@ == "new name must not be empty"@,
{
    if !trim(new_name).is_empty() {
        Ok(())
    } else {
        Err("new name must not be empty".to_owned())
    }
}

fn validate_new_name_is_concise(new_name: &str) -> (r: Result<(), String>)
    ensures
        r is Ok <==> encode_utf8(new_name@).len() as usize <= NEW_NAME_MAX_LEN,
        r matches Err(e) ==> e@ == "new name must not be longer than 30 characters"@,
{
    if new_name.len() <= NEW_NAME_MAX_LEN {
        Ok(())
    } else {
        Err("new name must not be longer than 30 characters".to_owned())
    }
}

fn validate_new_name_is_unique(new_name: &str, targets: &Vec<Target>) -> (r: Result<(), String>)
    ensures
        r is Ok <==> !names_target(targets@, new_name@),
        r matches Err(e) ==> e@ == "new name must not conflict with another target"@,
{
    if !has_target_named(new_name, targets) {
        Ok(())
    } else {
        Err("new name must not conflict with another target".to_owned())
    }
}

fn validate_new_name_is_valid_identifier(new_name: &str) -> (r: Result<(), String>)
    ensures
        r is Ok <==> regex_accepts(IDENTIFIER_PATTERN@) && regex_is_match_of(IDENTIFIER_PATTERN@, new_name@),
        r matches Err(e) ==> e@ == "new name must be comprised of alphanumeric characters and underscores only"@,
{
    match matches_pattern(IDENTIFIER_PATTERN, new_name) {
        Some(true) => Ok(()),
        _ => Err("new name must be comprised of alphanumeric characters and underscores only".to_owned()),
    }
}

/// Whether `text` ends with `suffix`.
pub open spec fn has_suffix(text: Seq<char>, suffix: Seq<char>) -> bool {
    text.len() >= suffix.len() && text.skip(text.len() - suffix.len()) == suffix
}

/// `text` without its last `n` characters.
pub open spec fn without_last(text: Seq<char>, n: int) -> Seq<char> {
    text.take(text.len() - n)
}

/// `text` without `suffix`, where it ends with it.
pub fn strip_suffix(text: &str, suffix: &str) -> (r: Option<String>)
    ensures
        r is Some <==> has_suffix(text@, suffix@),
        r matches Some(t) ==> t@ == without_last(text@, suffix@.len() as int),
{
    let n = text.unicode_len();
    let m = suffix.unicode_len();
    if m > n {
        return None;
    }
    let tail = text.substring_char(n - m, n).to_owned();
    let wanted = suffix.to_owned();
    if tail == wanted {
        assert(text@.skip(n - m) =~= text@.subrange(n - m, n as int));
        Some(text.substring_char(0, n - m).to_owned())
    } else {
        assert(text@.skip(n - m) =~= text@.subrange(n - m, n as int));
        None
    }
}

/// The name and the file of the target whose file name has the stem `stem`.
pub open spec fn target_of(source_dir: Seq<char>, stem: Seq<char>) -> (Seq<char>, Seq<char>) {
    (stem, with_extension_of(joined(source_dir, stem), "Target.cs"@))
}

/// The targets that the file names of a source directory show, in order:
/// one for each name that ends in the target suffix.
pub open spec fn targets_of(source_dir: Seq<char>, names: Seq<Seq<char>>) -> Seq<(Seq<char>, Seq<char>)>
    decreases names.len(),
{
    if names.len() == 0 {
        Seq::empty()
    } else {
        let rest = targets_of(source_dir, names.drop_last());
        let last = names.last();
        if has_suffix(last, TARGET_FILE_SUFFIX@) {
            rest.push(target_of(source_dir, without_last(last, TARGET_FILE_SUFFIX@.len() as int)))
        } else {
            rest
        }
    }
}

pub open spec fn target_views(targets: Seq<Target>) -> Seq<(Seq<char>, Seq<char>)> {
    targets.map_values(|t: Target| (t.name@, t.path@))
}

pub open spec fn name_views(names: Seq<String>) -> Seq<Seq<char>> {
    names.map_values(|n: String| n@)
}

/// The directory of a project that holds its sources and targets.
pub fn source_dir(project_root: &str) -> (r: String)
    ensures
        r@ == joined(project_root@, "Source"@),
{
    join(project_root, "Source")
}

/// The directory of a project where backups are kept.
pub fn backup_dir(project_root: &str) -> (r: String)
    ensures
        r@ == joined(project_root@, ".renom/backup"@),
{
    join(project_root, ".renom/backup")
}

/// The build targets that the file names found in a source directory show.
pub fn detect_project_targets(source_dir: &str, file_names: &Vec<String>) -> (r: Vec<Target>)
    ensures
        target_views(r@) == targets_of(source_dir@, name_views(file_names@)),
{
    let mut out: Vec<Target> = Vec::new();
    let mut i: usize = 0;
    while i < file_names.len()
        invariant
            i <= file_names@.len(),
            target_views(out@) == targets_of(source_dir@, name_views(file_names@.take(i as int))),
        decreases file_names@.len() - i,
    {
        let ghost before = out@;
        proof {
            let names = name_views(file_names@.take(i as int + 1));
            assert(names.drop_last() =~= name_views(file_names@.take(i as int)));
            assert(names.last() == file_names@[i as int]@);
        }
        match strip_suffix(file_names[i].as_str(), TARGET_FILE_SUFFIX) {
            Some(stem) => {
                proof {
                    reveal_strlit("Target.cs");
                }
                let path = with_extension(join(source_dir, stem.as_str()).as_str(), "Target.cs");
                out.push(Target { name: stem, path });
                assert(target_views(out@) =~= target_views(before).push(target_views(out@).last()));
            },
            None => {},
        }
        i = i + 1;
    }
    assert(file_names@.take(file_names@.len() as int) =~= file_names@);
    out
}

/// Index of the first target with the given name.
fn find_target(name: &String, targets: &Vec<Target>) -> (r: Option<usize>)
    ensures
        r is Some <==> names_target(targets@, name@),
        r matches Some(i) ==> i < targets@.len() && targets@[i as int].name@ == name@ && forall|j: int|
            0 <= j < i ==> #[trigger] targets@[j].name@ != name@,
{
    let mut i: usize = 0;
    while i < targets.len()
        invariant
            i <= targets@.len(),
            forall|j: int| 0 <= j < i ==> #[trigger] targets@[j].name@ != name@,
        decreases targets@.len() - i,
    {
        if targets[i].name == *name {
            return Some(i);
        }
        i = i + 1;
    }
    None
}

/// The context of a rename: the target is the first one with the requested
/// name.
pub fn gather_context(params: &Params, project_targets: Vec<Target>) -> (r: Result<Context, String>)
    ensures
        r is Ok <==> names_target(project_targets@, params.target@),
        r matches Err(e) ==> e@ == "target must be part of project"@,
        r matches Ok(c) ==> {
            &&& c.project_root@ == params.project_root@
            &&& c.new_name@ == params.new_name@
            &&& c.project_targets@ == project_targets@
            &&& c.target.name@ == params.target@
            &&& exists|i: int|
                0 <= i < project_targets@.len() && #[trigger] project_targets@[i].name@ == params.target@
                    && c.target.path@ == project_targets@[i].path@ && forall|j: int|
                    0 <= j < i ==> #[trigger] project_targets@[j].name@ != params.target@
        },
{
    match find_target(&params.target, &project_targets) {
        Some(i) => {
            let target = project_targets[i].duplicate();
            Ok(Context {
                project_root: params.project_root.clone(),
                project_targets,
                target,
                new_name: params.new_name.clone(),
            })
        },
        None => Err("target must be part of project".to_owned()),
    }
}

/// The message shown when a target was renamed.
pub fn success_message(context: &Context) -> (r: String)
    ensures
        r@ == "Successfully renamed target "@ + context.target.name@ + " to "@ + context.new_name@ + "."@,
{
    let mut m = "Successfully renamed target ".to_owned();
    m.append(context.target.name.as_str());
    m.append(" to ");
    m.append(context.new_name.as_str());
    m.append(".");
    m
}

/// The message shown when renaming a target failed and was undone.
pub fn failure_message(context: &Context) -> (r: String)
    ensures
        r@ == "Failed to rename target "@ + context.target.name@ + " to "@ + context.new_name@ + "."@,
{
    let mut m = "Failed to rename target ".to_owned();
    m.append(context.target.name.as_str());
    m.append(" to ");
    m.append(context.new_name.as_str());
    m.append(".");
    m
}

} // verus!
