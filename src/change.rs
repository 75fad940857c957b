//! Changes to a project tree, the filesystem operations that carry them out,
//! and the actions that undo them.

use vstd::prelude::*;
use crate::digest::{backup_file_name, backup_name};
use crate::ini_edit::{add_entry, add_entry_spec, ini_parse_error_of, set_entry, set_entry_spec, without_bom};
use crate::paths::{join, joined};
use crate::pattern::{regex_accepts, regex_replace_all_of, replace_all_matches};

verus! {

/// A filesystem operation, as performed by whoever drives the changes.
#[derive(Debug)]
pub enum FsOp {
    /// Read the whole text of a file.
    Read { path: String },
    /// Replace the whole content of a file, creating it if needed.
    Write { path: String, content: String },
    /// Rename a file or directory.
    Rename { from: String, to: String },
    /// Overwrite `to` with the content of `from`.
    Copy { from: String, to: String },
}

/// The mathematical form of a filesystem operation.
pub enum OpModel {
    Read(Seq<char>),
    Write(Seq<char>, Seq<char>),
    Rename(Seq<char>, Seq<char>),
    Copy(Seq<char>, Seq<char>),
}

impl View for FsOp {
    type V = OpModel;

    open spec fn view(&self) -> OpModel {
        match self {
            FsOp::Read { path } => OpModel::Read(path@),
            FsOp::Write { path, content } => OpModel::Write(path@, content@),
            FsOp::Rename { from, to } => OpModel::Rename(from@, to@),
            FsOp::Copy { from, to } => OpModel::Copy(from@, to@),
        }
    }
}

impl FsOp {
    /// A copy of the operation.
    pub fn duplicate(&self) -> (r: FsOp)
        ensures
            r@ == self@,
    {
        match self {
            FsOp::Read { path } => FsOp::Read { path: path.clone() },
            FsOp::Write { path, content } => FsOp::Write { path: path.clone(), content: content.clone() },
            FsOp::Rename { from, to } => FsOp::Rename { from: from.clone(), to: to.clone() },
            FsOp::Copy { from, to } => FsOp::Copy { from: from.clone(), to: to.clone() },
        }
    }
}

pub open spec fn ops_view(ops: Seq<FsOp>) -> Seq<OpModel> {
    ops.map_values(|o: FsOp| o@)
}

/// A tree of files: each path with its text.
pub type Tree = Map<Seq<char>, Seq<char>>;

/// The tree after an operation, or `None` where it fails: reading or copying
/// a missing file, renaming a missing file or onto an existing one.
pub open spec fn perform(tree: Tree, op: OpModel) -> Option<Tree> {
    match op {
        OpModel::Read(p) => if tree.contains_key(p) { Some(tree) } else { None },
        OpModel::Write(p, c) => Some(tree.insert(p, c)),
        OpModel::Rename(a, b) => if tree.contains_key(a) && !tree.contains_key(b) {
            Some(tree.remove(a).insert(b, tree[a]))
        } else {
            None
        },
        OpModel::Copy(a, b) => if tree.contains_key(a) { Some(tree.insert(b, tree[a])) } else { None },
    }
}

/// The tree after operations in order, or `None` where one fails.
pub open spec fn perform_all(tree: Tree, ops: Seq<OpModel>) -> Option<Tree>
    decreases ops.len(),
{
    if ops.len() == 0 {
        Some(tree)
    } else {
        match perform(tree, ops[0]) {
            Some(t) => perform_all(t, ops.drop_first()),
            None => None,
        }
    }
}

/// The text that applying `c` to `tree` reads: its source file's, or none.
pub open spec fn current_text(c: Change, tree: Tree) -> Seq<char> {
    match c.source_spec() {
        Some(p) => tree[p],
        None => Seq::empty(),
    }
}

/// Applying a change and then running its undoing operation gives back every
/// file the change touched, with the same name and the same text: a rename
/// leaves the tree exactly as it was, and a rewrite leaves it as it was but
/// for the backup file that it added.
pub proof fn lemma_round_trip(c: Change, dir: Seq<char>, tree: Tree)
    requires
        c.source_spec() matches Some(p) ==> tree.contains_key(p) && p != joined(
            dir,
            backup_name(tree[p]),
        ),
        c.plan_spec(dir, current_text(c, tree)) is Some,
        perform_all(tree, c.plan_spec(dir, current_text(c, tree))->Some_0.0) is Some,
    ensures
        ({
            let (ops, undo) = c.plan_spec(dir, current_text(c, tree))->Some_0;
            let applied = perform_all(tree, ops)->Some_0;
            match c.source_spec() {
                None => perform(applied, undo) == Some(tree),
                Some(p) => perform(applied, undo) == Some(
                    tree.insert(joined(dir, backup_name(tree[p])), tree[p]),
                ),
            }
        }),
{
    let cur = current_text(c, tree);
    let (ops, undo) = c.plan_spec(dir, cur)->Some_0;
    reveal_with_fuel(perform_all, 3);
    assert(ops.drop_first().len() + 1 == ops.len());
    if ops.len() == 2 {
        assert(ops.drop_first().drop_first().len() == 0);
    }
    let applied = perform_all(tree, ops)->Some_0;
    match c.source_spec() {
        None => {
            let a = c->RenameFile_0.from@;
            let b = c->RenameFile_0.to@;
            assert(ops.drop_first() =~= Seq::<OpModel>::empty());
            assert(applied == tree.remove(a).insert(b, tree[a]));
            assert(applied.remove(b).insert(a, applied[b]) =~= tree);
        },
        Some(p) => {
            let bk = joined(dir, backup_name(tree[p]));
            assert(ops.drop_first() =~= seq![ops[1]]);
            assert(applied == tree.insert(bk, cur).insert(p, ops[1]->Write_1));
            assert(applied.insert(p, applied[bk]) =~= tree.insert(bk, tree[p]));
        },
    }
}

/// Backing up the same text twice, for one change or for two different ones,
/// writes the same backup file with the same content: the write never fails,
/// and doing it a second time leaves the tree as the first time left it.
pub proof fn lemma_backup_idempotent(c1: Change, c2: Change, dir: Seq<char>, text: Seq<char>, tree: Tree)
    requires
        c1.source_spec() is Some,
        c2.source_spec() is Some,
        c1.plan_spec(dir, text) is Some,
        c2.plan_spec(dir, text) is Some,
    ensures
        c1.plan_spec(dir, text)->Some_0.0[0] == OpModel::Write(joined(dir, backup_name(text)), text),
        c2.plan_spec(dir, text)->Some_0.0[0] == c1.plan_spec(dir, text)->Some_0.0[0],
        perform(tree, c1.plan_spec(dir, text)->Some_0.0[0]) matches Some(once) && perform(
            once,
            c2.plan_spec(dir, text)->Some_0.0[0],
        ) == Some(once),
{
    let bk = joined(dir, backup_name(text));
    let once = tree.insert(bk, text);
    assert(once.insert(bk, text) =~= once);
}

/// A plan holds one operation (a rename) or two (a backup, then a write),
/// and no read.
pub proof fn lemma_plan_len(c: Change, dir: Seq<char>, current: Seq<char>)
    ensures
        c.plan_spec(dir, current) matches Some(p) ==> {
            &&& 1 <= p.0.len() <= 2
            &&& forall|i: int| 0 <= i < p.0.len() ==> !(#[trigger] p.0[i] is Read)
        },
{
}

/// Renames a file.
#[derive(Debug, PartialEq, Eq)]
pub struct RenameFile {
    pub from: String,
    pub to: String,
}

impl RenameFile {
    pub fn new(from: String, to: String) -> (r: RenameFile)
        ensures
            r.from@ == from@,
            r.to@ == to@,
    {
        RenameFile { from, to }
    }
}

/// Replaces every match of a regular expression in a file.
#[derive(Debug, PartialEq, Eq)]
pub struct ReplaceInFile {
    pub path: String,
    pub from: String,
    pub to: String,
}

impl ReplaceInFile {
    pub fn new(path: String, from: String, to: String) -> (r: ReplaceInFile)
        ensures
            r.path@ == path@,
            r.from@ == from@,
            r.to@ == to@,
    {
        ReplaceInFile { path, from, to }
    }
}

/// Sets a key of a section in an INI file, replacing its value.
#[derive(Debug, PartialEq, Eq)]
pub struct SetIniEntry {
    pub path: String,
    pub section: String,
    pub key: String,
    pub value: String,
}

impl SetIniEntry {
    pub fn new(path: String, section: String, key: String, value: String) -> (r: SetIniEntry)
        ensures
            r.path@ == path@,
            r.section@ == section@,
            r.key@ == key@,
            r.value@ == value@,
    {
        SetIniEntry { path, section, key, value }
    }
}

/// Appends a key to a section in an INI file, keeping existing entries.
#[derive(Debug, PartialEq, Eq)]
pub struct AppendIniEntry {
    pub path: String,
    pub section: String,
    pub key: String,
    pub value: String,
}

impl AppendIniEntry {
    pub fn new(path: String, section: String, key: String, value: String) -> (r: AppendIniEntry)
        ensures
            r.path@ == path@,
            r.section@ == section@,
            r.key@ == key@,
            r.value@ == value@,
    {
        AppendIniEntry { path, section, key, value }
    }
}

/// One intended mutation of the project tree.
#[derive(Debug, PartialEq, Eq)]
pub enum Change {
    RenameFile(RenameFile),
    ReplaceInFile(ReplaceInFile),
    SetIniEntry(SetIniEntry),
    AppendIniEntry(AppendIniEntry),
}

/// Undoes one applied change.
#[derive(Debug)]
pub enum RevertAction {
    /// Rename `from` back to `to`.
    RenameBack { from: String, to: String },
    /// Overwrite `target` with the backup's content.
    RestoreFromBackup { backup: String, target: String },
}

impl View for RevertAction {
    type V = OpModel;

    /// The one operation that the action performs.
    open spec fn view(&self) -> OpModel {
        match self {
            RevertAction::RenameBack { from, to } => OpModel::Rename(from@, to@),
            RevertAction::RestoreFromBackup { backup, target } => OpModel::Copy(backup@, target@),
        }
    }
}

impl RevertAction {
    /// The filesystem operation that undoes the change.
    pub fn op(&self) -> (r: FsOp)
        ensures
            r@ == self@,
    {
        match self {
            RevertAction::RenameBack { from, to } => FsOp::Rename { from: from.clone(), to: to.clone() },
            RevertAction::RestoreFromBackup { backup, target } => FsOp::Copy {
                from: backup.clone(),
                to: target.clone(),
            },
        }
    }
}

/// What applying a change takes: its operations in order, and how to undo it.
pub struct Plan {
    pub ops: Vec<FsOp>,
    pub revert: RevertAction,
}

impl Change {
    /// The file whose text applying the change needs, if any.
    pub open spec fn source_spec(&self) -> Option<Seq<char>> {
        match self {
            Change::RenameFile(_) => None,
            Change::ReplaceInFile(c) => Some(c.path@),
            Change::SetIniEntry(c) => Some(c.path@),
            Change::AppendIniEntry(c) => Some(c.path@),
        }
    }

    /// The operations and the undoing operation of applying the change, with
    /// backups under `dir`, to a file whose text is `current`; `None` where
    /// the pattern is invalid or the text is not INI.
    pub open spec fn plan_spec(&self, dir: Seq<char>, current: Seq<char>) -> Option<(Seq<OpModel>, OpModel)> {
        let backup = joined(dir, backup_name(current));
        match self {
            Change::RenameFile(c) => Some((seq![OpModel::Rename(c.from@, c.to@)], OpModel::Rename(c.to@, c.from@))),
            Change::ReplaceInFile(c) => if regex_accepts(c.from@) {
                Some((
                    seq![OpModel::Write(backup, current), OpModel::Write(c.path@, regex_replace_all_of(c.from@, current, c.to@))],
                    OpModel::Copy(backup, c.path@),
                ))
            } else {
                None
            },
            Change::SetIniEntry(c) => match set_entry_spec(current, c.section@, c.key@, c.value@) {
                Some(t) => Some((seq![OpModel::Write(backup, current), OpModel::Write(c.path@, t)], OpModel::Copy(backup, c.path@))),
                None => None,
            },
            Change::AppendIniEntry(c) => match add_entry_spec(current, c.section@, c.key@, c.value@) {
                Some(t) => Some((seq![OpModel::Write(backup, current), OpModel::Write(c.path@, t)], OpModel::Copy(backup, c.path@))),
                None => None,
            },
        }
    }

    /// The message of the error met when the change cannot be planned on
    /// `current`: the pattern is invalid, or the text is not INI.
    pub open spec fn apply_error_spec(&self, current: Seq<char>) -> Seq<char> {
        match self {
            Change::ReplaceInFile(_) => "invalid regular expression"@,
            Change::SetIniEntry(_) | Change::AppendIniEntry(_) => ini_parse_error_of(without_bom(current)),
            Change::RenameFile(_) => Seq::empty(),
        }
    }

    /// The file whose text must be read before the change can be applied;
    /// a rename needs none.
    pub fn source(&self) -> (r: Option<String>)
        ensures
            r matches Some(p) ==> self.source_spec() == Some(p@),
            r is None ==> self.source_spec() is None,
    {
        match self {
            Change::RenameFile(_) => None,
            Change::ReplaceInFile(c) => Some(c.path.clone()),
            Change::SetIniEntry(c) => Some(c.path.clone()),
            Change::AppendIniEntry(c) => Some(c.path.clone()),
        }
    }

    /// Applies the change to a file whose text is `current` (ignored for a
    /// rename): the operations to perform, in order, and the action that
    /// undoes them. Every change but a rename first writes the current text
    /// to the backup directory under its content address.
    pub fn apply(&self, backup_dir: &str, current: &str) -> (r: Result<Plan, String>)
        ensures
            r is Ok <==> self.plan_spec(backup_dir@, current@) is Some,
            r matches Ok(p) ==> self.plan_spec(backup_dir@, current@) == Some((ops_view(p.ops@), p.revert@)),
            r matches Err(e) ==> e@ == self.apply_error_spec(current@),
    {
        match self {
            Change::RenameFile(c) => {
                let ops = vec![FsOp::Rename { from: c.from.clone(), to: c.to.clone() }];
                let revert = RevertAction::RenameBack { from: c.to.clone(), to: c.from.clone() };
                assert(ops_view(ops@) =~= seq![OpModel::Rename(c.from@, c.to@)]);
                Ok(Plan { ops, revert })
            },
            Change::ReplaceInFile(c) => {
                match replace_all_matches(c.from.as_str(), current, c.to.as_str()) {
                    Some(text) => Ok(Change::overwrite_plan(backup_dir, current, &c.path, text)),
                    None => Err(String::from_str("invalid regular expression")),
                }
            },
            Change::SetIniEntry(c) => {
                let text = set_entry(current, c.section.as_str(), c.key.as_str(), c.value.as_str())?;
                Ok(Change::overwrite_plan(backup_dir, current, &c.path, text))
            },
            Change::AppendIniEntry(c) => {
                let text = add_entry(current, c.section.as_str(), c.key.as_str(), c.value.as_str())?;
                Ok(Change::overwrite_plan(backup_dir, current, &c.path, text))
            },
        }
    }

    /// Back up `current`, then write `text` to `path`; undone by restoring the backup.
    fn overwrite_plan(backup_dir: &str, current: &str, path: &String, text: String) -> (r: Plan)
        ensures
            ({
                let backup = joined(backup_dir@, backup_name(current@));
                &&& ops_view(r.ops@) == seq![OpModel::Write(backup, current@), OpModel::Write(path@, text@)]
                &&& r.revert@ == OpModel::Copy(backup, path@)
            }),
    {
        let name = backup_file_name(current);
        let backup = join(backup_dir, name.as_str());
        let ops = vec![
            FsOp::Write { path: backup.clone(), content: current.to_owned() },
            FsOp::Write { path: path.clone(), content: text },
        ];
        assert(ops_view(ops@) =~= seq![OpModel::Write(backup@, current@), OpModel::Write(path@, ops@[1]->Write_content@)]);
        Plan { ops, revert: RevertAction::RestoreFromBackup { backup, target: path.clone() } }
    }
}

} // verus!
