use std::collections::HashMap;

use renom::change::{AppendIniEntry, Change, FsOp, RenameFile, ReplaceInFile, SetIniEntry};
use renom::engine::{Engine, Outcome, Phase, Step};

/// An in-memory tree of files that performs the engine's operations.
struct Tree {
    files: HashMap<String, String>,
    log: Vec<String>,
    fail_on: Option<String>,
}

impl Tree {
    fn new(files: &[(&str, &str)]) -> Tree {
        Tree {
            files: files.iter().map(|(p, c)| (p.to_string(), c.to_string())).collect(),
            log: Vec::new(),
            fail_on: None,
        }
    }

    fn perform(&mut self, op: FsOp) -> Outcome {
        let touched = match &op {
            FsOp::Read { path } | FsOp::Write { path, .. } => path.clone(),
            FsOp::Rename { from, .. } | FsOp::Copy { from, .. } => from.clone(),
        };
        self.log.push(format!("{:?}", op));
        if self.fail_on.as_deref() == Some(touched.as_str()) {
            return Outcome::Failed(format!("cannot touch {}", touched));
        }
        match op {
            FsOp::Read { path } => match self.files.get(&path) {
                Some(c) => Outcome::Content(c.clone()),
                None => Outcome::Failed(format!("{} not found", path)),
            },
            FsOp::Write { path, content } => {
                self.files.insert(path, content);
                Outcome::Done
            }
            FsOp::Rename { from, to } => {
                if self.files.contains_key(&to) {
                    return Outcome::Failed(format!("{} exists", to));
                }
                match self.files.remove(&from) {
                    Some(c) => {
                        self.files.insert(to, c);
                        Outcome::Done
                    }
                    None => Outcome::Failed(format!("{} not found", from)),
                }
            }
            FsOp::Copy { from, to } => match self.files.get(&from).cloned() {
                Some(c) => {
                    self.files.insert(to, c);
                    Outcome::Done
                }
                None => Outcome::Failed(format!("{} not found", from)),
            },
        }
    }

    fn drive(&mut self, engine: &mut Engine, mut step: Step) -> Result<(), String> {
        loop {
            match step {
                Step::Perform(op) => {
                    let outcome = self.perform(op);
                    step = engine.on_outcome(outcome);
                }
                Step::Finished(r) => return r,
            }
        }
    }

    fn get(&self, path: &str) -> Option<&str> {
        self.files.get(path).map(|s| s.as_str())
    }
}

fn rename(from: &str, to: &str) -> Change {
    Change::RenameFile(RenameFile::new(from.to_string(), to.to_string()))
}

fn replace(path: &str, from: &str, to: &str) -> Change {
    Change::ReplaceInFile(ReplaceInFile::new(path.to_string(), from.to_string(), to.to_string()))
}

fn execute(tree: &mut Tree, engine: &mut Engine, changes: Vec<Change>) -> Result<(), String> {
    let step = engine.execute(changes, "/backup".to_string());
    tree.drive(engine, step)
}

fn revert(tree: &mut Tree, engine: &mut Engine) -> Result<(), String> {
    let step = engine.revert();
    tree.drive(engine, step)
}

#[test]
fn all_applied_changes_are_recorded_in_order() {
    let mut tree = Tree::new(&[("a.txt", "alpha"), ("b.txt", "beta")]);
    let mut engine = Engine::new();
    let changes = vec![
        replace("a.txt", "alpha", "ALPHA"),
        rename("b.txt", "c.txt"),
        replace("c.txt", "e", "E"),
    ];
    assert_eq!(execute(&mut tree, &mut engine, changes), Ok(()));
    assert_eq!(engine.phase(), Phase::AllApplied);
    assert_eq!(engine.history_len(), 3);
    assert_eq!(engine.history_change(0), &replace("a.txt", "alpha", "ALPHA"));
    assert_eq!(engine.history_change(1), &rename("b.txt", "c.txt"));
    assert_eq!(engine.history_change(2), &replace("c.txt", "e", "E"));
    assert_eq!(tree.get("a.txt"), Some("ALPHA"));
    assert_eq!(tree.get("c.txt"), Some("bEta"));
    assert_eq!(tree.get("b.txt"), None);
}

#[test]
fn empty_changeset_succeeds_at_once() {
    let mut engine = Engine::new();
    let step = engine.execute(Vec::new(), "/backup".to_string());
    assert!(matches!(step, Step::Finished(Ok(()))));
    assert_eq!(engine.history_len(), 0);
    assert_eq!(engine.phase(), Phase::AllApplied);
}

#[test]
fn failure_stops_the_run_and_keeps_the_predecessors() {
    let mut tree = Tree::new(&[("a.txt", "one"), ("c.txt", "three")]);
    let mut engine = Engine::new();
    let changes = vec![
        replace("a.txt", "one", "1"),
        replace("missing.txt", "x", "y"),
        replace("c.txt", "three", "3"),
    ];
    let r = execute(&mut tree, &mut engine, changes);
    assert_eq!(r, Err("missing.txt not found".to_string()));
    assert_eq!(engine.phase(), Phase::HaltedOnApplyError);
    assert_eq!(engine.history_len(), 1);
    assert_eq!(engine.history_change(0), &replace("a.txt", "one", "1"));
    assert_eq!(tree.get("a.txt"), Some("1"));
    assert_eq!(tree.get("c.txt"), Some("three"));
    assert!(!engine.is_awaiting());
}

#[test]
fn failure_on_first_change_records_nothing() {
    let mut tree = Tree::new(&[("b.txt", "x")]);
    let mut engine = Engine::new();
    let r = execute(&mut tree, &mut engine, vec![rename("a.txt", "z.txt"), rename("b.txt", "y.txt")]);
    assert_eq!(r, Err("a.txt not found".to_string()));
    assert_eq!(engine.history_len(), 0);
    assert_eq!(tree.get("b.txt"), Some("x"));
    assert_eq!(tree.get("y.txt"), None);
}

#[test]
fn rename_onto_existing_file_fails() {
    let mut tree = Tree::new(&[("a", "1"), ("b", "2")]);
    let mut engine = Engine::new();
    let r = execute(&mut tree, &mut engine, vec![rename("a", "b")]);
    assert_eq!(r, Err("b exists".to_string()));
    assert_eq!(engine.history_len(), 0);
}

#[test]
fn invalid_pattern_is_an_error() {
    let mut tree = Tree::new(&[("a.txt", "text")]);
    let mut engine = Engine::new();
    let r = execute(&mut tree, &mut engine, vec![replace("a.txt", "(", "x")]);
    assert!(r.is_err());
    assert_eq!(engine.history_len(), 0);
    assert_eq!(tree.get("a.txt"), Some("text"));
}

#[test]
fn revert_undoes_the_most_recent_change_first() {
    let mut tree = Tree::new(&[("f.txt", "v0")]);
    let mut engine = Engine::new();
    let changes = vec![
        replace("f.txt", "v0", "v1"),
        replace("f.txt", "v1", "v2"),
        rename("f.txt", "g.txt"),
    ];
    assert_eq!(execute(&mut tree, &mut engine, changes), Ok(()));
    assert_eq!(tree.get("g.txt"), Some("v2"));
    tree.log.clear();
    assert_eq!(revert(&mut tree, &mut engine), Ok(()));
    assert_eq!(engine.phase(), Phase::FullyReverted);
    assert_eq!(engine.history_len(), 0);
    assert_eq!(tree.get("f.txt"), Some("v0"));
    assert_eq!(tree.get("g.txt"), None);
    assert_eq!(tree.log.len(), 3);
    assert!(tree.log[0].starts_with("Rename"));
    assert!(tree.log[1].starts_with("Copy"));
    assert!(tree.log[2].starts_with("Copy"));
}

#[test]
fn failing_revert_stops_and_keeps_older_entries() {
    let mut tree = Tree::new(&[("a", "1"), ("b", "2"), ("c", "3")]);
    let mut engine = Engine::new();
    let changes = vec![rename("a", "a2"), rename("b", "b2"), rename("c", "c2")];
    assert_eq!(execute(&mut tree, &mut engine, changes), Ok(()));
    tree.fail_on = Some("b2".to_string());
    let r = revert(&mut tree, &mut engine);
    assert_eq!(r, Err("cannot touch b2".to_string()));
    assert_eq!(engine.phase(), Phase::HaltedOnRevertError);
    assert_eq!(engine.history_len(), 2);
    assert_eq!(tree.get("c"), Some("3"));
    assert_eq!(tree.get("b2"), Some("2"));
    assert_eq!(tree.get("a2"), Some("1"));
    assert_eq!(tree.get("a"), None);
}

#[test]
fn rename_and_revert_keep_the_content() {
    let mut tree = Tree::new(&[("MyGame.uproject", "{ \"FileVersion\": 3 }")]);
    let mut engine = Engine::new();
    let r = execute(&mut tree, &mut engine, vec![rename("MyGame.uproject", "Foo.uproject")]);
    assert_eq!(r, Ok(()));
    assert_eq!(tree.get("MyGame.uproject"), None);
    assert_eq!(tree.get("Foo.uproject"), Some("{ \"FileVersion\": 3 }"));
    assert_eq!(revert(&mut tree, &mut engine), Ok(()));
    assert_eq!(tree.get("Foo.uproject"), None);
    assert_eq!(tree.get("MyGame.uproject"), Some("{ \"FileVersion\": 3 }"));
}

#[test]
fn regex_replace_and_revert_restore_exact_bytes() {
    let before = "OldName::Init()  \n";
    let mut tree = Tree::new(&[("src/Game.cpp", before)]);
    let mut engine = Engine::new();
    let r = execute(&mut tree, &mut engine, vec![replace("src/Game.cpp", "OldName", "NewName")]);
    assert_eq!(r, Ok(()));
    assert_eq!(tree.get("src/Game.cpp"), Some("NewName::Init()  \n"));
    assert_eq!(revert(&mut tree, &mut engine), Ok(()));
    assert_eq!(tree.get("src/Game.cpp"), Some(before));
}

#[test]
fn ini_changes_round_trip() {
    let before = "[A]\nx=1\n";
    let mut tree = Tree::new(&[("cfg.ini", before)]);
    let mut engine = Engine::new();
    let changes = vec![
        Change::SetIniEntry(SetIniEntry::new("cfg.ini".into(), "A".into(), "x".into(), "2".into())),
        Change::AppendIniEntry(AppendIniEntry::new("cfg.ini".into(), "B".into(), "y".into(), "3".into())),
    ];
    assert_eq!(execute(&mut tree, &mut engine, changes), Ok(()));
    assert_eq!(tree.get("cfg.ini"), Some("[A]\nx=2\n\n[B]\ny=3\n"));
    assert_eq!(revert(&mut tree, &mut engine), Ok(()));
    assert_eq!(tree.get("cfg.ini"), Some(before));
}

#[test]
fn backups_are_named_by_content() {
    let mut tree = Tree::new(&[("a.txt", "hello world"), ("b.txt", "hello world")]);
    let mut engine = Engine::new();
    let changes = vec![replace("a.txt", "hello", "bye"), replace("b.txt", "world", "all")];
    assert_eq!(execute(&mut tree, &mut engine, changes), Ok(()));
    let backup = "/backup/b94d27b9934d3e08a52e52d7da7dabfac484efe37a5380ee9088f7ace2efcde9";
    assert_eq!(tree.get(backup), Some("hello world"));
    let backups = tree.files.keys().filter(|k| k.starts_with("/backup/")).count();
    assert_eq!(backups, 1);
}

#[test]
fn execute_after_success_extends_the_history() {
    let mut tree = Tree::new(&[("a", "1"), ("b", "2")]);
    let mut engine = Engine::new();
    assert_eq!(execute(&mut tree, &mut engine, vec![rename("a", "a2")]), Ok(()));
    assert!(engine.can_execute());
    assert_eq!(execute(&mut tree, &mut engine, vec![rename("b", "b2")]), Ok(()));
    assert_eq!(engine.history_len(), 2);
    assert_eq!(engine.history_change(1), &rename("b", "b2"));
}

#[test]
fn revert_of_a_new_engine_asks_for_nothing() {
    let mut engine = Engine::new();
    assert!(matches!(engine.revert(), Step::Finished(Ok(()))));
    assert_eq!(engine.phase(), Phase::FullyReverted);
}

#[test]
fn operations_come_in_plan_order() {
    let mut tree = Tree::new(&[("a.txt", "x"), ("b", "y")]);
    let mut engine = Engine::new();
    let changes = vec![replace("a.txt", "x", "z"), rename("b", "c")];
    assert_eq!(execute(&mut tree, &mut engine, changes), Ok(()));
    assert_eq!(tree.log.len(), 4);
    assert!(tree.log[0].starts_with("Read"));
    assert!(tree.log[1].starts_with("Write") && tree.log[1].contains("/backup/"));
    assert!(tree.log[2].starts_with("Write") && tree.log[2].contains("a.txt"));
    assert!(tree.log[3].starts_with("Rename"));
}

#[test]
fn rejected_change_forwards_its_own_error() {
    let text = "[A\nx=1\n";
    let expected = renom::ini_edit::set_entry(text, "A", "x", "2").unwrap_err();
    let mut tree = Tree::new(&[("a", "1"), ("cfg.ini", text)]);
    let mut engine = Engine::new();
    let changes = vec![
        rename("a", "b"),
        Change::SetIniEntry(SetIniEntry::new("cfg.ini".into(), "A".into(), "x".into(), "2".into())),
        rename("b", "c"),
    ];
    assert_eq!(execute(&mut tree, &mut engine, changes), Err(expected));
    assert_eq!(engine.history_len(), 1);
    assert_eq!(tree.get("b"), Some("1"));
    assert_eq!(tree.get("c"), None);
    assert_eq!(tree.get("cfg.ini"), Some(text));
}

#[test]
fn invalid_pattern_error_message() {
    let mut tree = Tree::new(&[("a.txt", "text")]);
    let mut engine = Engine::new();
    let r = execute(&mut tree, &mut engine, vec![replace("a.txt", "(", "x")]);
    assert_eq!(r, Err("invalid regular expression".to_string()));
}
