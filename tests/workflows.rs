use renom::change::Change;
use renom::cli::{RenameModule, RenamePlugin, RenameProject, RenameTarget};
use renom::unreal::Target;
use renom::workflows::rename_project::{self, generate_changeset};
use renom::workflows::rename_target::{
    backup_dir, detect_project_targets, failure_message, gather_context, source_dir, strip_suffix, success_message,
    validate_params, Params, ProjectLayout,
};

fn target(name: &str) -> Target {
    Target { name: name.to_string(), path: format!("root/Source/{}.Target.cs", name) }
}

fn targets() -> Vec<Target> {
    vec![target("Game"), target("GameEditor")]
}

fn params(target: &str, new_name: &str) -> Params {
    Params { project_root: "root".into(), target: target.into(), new_name: new_name.into(), verbose: false }
}

fn layout() -> ProjectLayout {
    ProjectLayout { root_is_dir: true, has_descriptor: true, has_source_dir: true }
}

#[test]
fn project_changeset() {
    let context = rename_project::Context {
        project_root: "/work/MyGame".into(),
        project_name: "MyGame".into(),
        new_name: "Foo".into(),
    };
    let changes = generate_changeset(&context);
    assert_eq!(changes.len(), 4);
    match &changes[0] {
        Change::SetIniEntry(e) => {
            assert_eq!(e.path, "/work/MyGame/Config/DefaultEngine.ini");
            assert_eq!((e.section.as_str(), e.key.as_str(), e.value.as_str()), ("URL", "GameName", "Foo"));
        }
        _ => panic!("expected an INI change"),
    }
    match &changes[1] {
        Change::SetIniEntry(e) => {
            assert_eq!(e.path, "/work/MyGame/Config/DefaultGame.ini");
            assert_eq!(e.section, "/Script/EngineSettings.GeneralProjectSettings");
            assert_eq!((e.key.as_str(), e.value.as_str()), ("ProjectName", "Foo"));
        }
        _ => panic!("expected an INI change"),
    }
    match &changes[2] {
        Change::RenameFile(e) => {
            assert_eq!(e.from, "/work/MyGame/MyGame.uproject");
            assert_eq!(e.to, "/work/MyGame/Foo.uproject");
        }
        _ => panic!("expected a rename"),
    }
    match &changes[3] {
        Change::RenameFile(e) => {
            assert_eq!(e.from, "/work/MyGame");
            assert_eq!(e.to, "/work/Foo");
        }
        _ => panic!("expected a rename"),
    }
}

#[test]
fn valid_request_passes() {
    assert_eq!(validate_params(&params("Game", "Shooter"), &layout(), &targets()), Ok(()));
}

#[test]
fn each_validation_error() {
    let t = targets();
    let mut l = layout();
    l.root_is_dir = false;
    assert_eq!(validate_params(&params("Game", "X"), &l, &t), Err("project root must be a directory".into()));
    let mut l = layout();
    l.has_descriptor = false;
    assert_eq!(
        validate_params(&params("Game", "X"), &l, &t),
        Err("project root must contain a project descriptor".into())
    );
    let mut l = layout();
    l.has_source_dir = false;
    assert_eq!(validate_params(&params("Game", "X"), &l, &t), Err("project root must contain a Source folder".into()));
    assert_eq!(validate_params(&params("Nope", "X"), &layout(), &t), Err("target must be part of project".into()));
    assert_eq!(validate_params(&params("Game", "  "), &layout(), &t), Err("new name must not be empty".into()));
    assert_eq!(validate_params(&params("Game", "\u{3000}\t"), &layout(), &t), Err("new name must not be empty".into()));
    assert_eq!(
        validate_params(&params("Game", &"a".repeat(31)), &layout(), &t),
        Err("new name must not be longer than 30 characters".into())
    );
    assert_eq!(
        validate_params(&params("Game", "GameEditor"), &layout(), &t),
        Err("new name must not conflict with another target".into())
    );
    assert_eq!(
        validate_params(&params("Game", "Bad-Name"), &layout(), &t),
        Err("new name must be comprised of alphanumeric characters and underscores only".into())
    );
}

#[test]
fn name_of_thirty_bytes_is_accepted() {
    assert_eq!(validate_params(&params("Game", &"a".repeat(30)), &layout(), &targets()), Ok(()));
}

#[test]
fn targets_from_file_names() {
    let names = vec!["Game.Target.cs".to_string(), "Game.Build.cs".to_string(), "GameEditor.Target.cs".to_string()];
    let found = detect_project_targets("root/Source", &names);
    assert_eq!(found, vec![target("Game"), target("GameEditor")]);
    assert_eq!(source_dir("root"), "root/Source");
    assert_eq!(backup_dir("root"), "root/.renom/backup");
}

#[test]
fn stripping_suffixes() {
    assert_eq!(strip_suffix("Game.Target.cs", ".Target.cs"), Some("Game".to_string()));
    assert_eq!(strip_suffix(".Target.cs", ".Target.cs"), Some("".to_string()));
    assert_eq!(strip_suffix("cs", ".Target.cs"), None);
    assert_eq!(strip_suffix("Game.Build.cs", ".Target.cs"), None);
}

#[test]
fn context_and_messages() {
    let context = gather_context(&params("GameEditor", "ShooterEditor"), targets()).unwrap();
    assert_eq!(context.target, target("GameEditor"));
    assert_eq!(context.project_targets.len(), 2);
    assert_eq!(success_message(&context), "Successfully renamed target GameEditor to ShooterEditor.");
    assert_eq!(failure_message(&context), "Failed to rename target GameEditor to ShooterEditor.");
    assert!(gather_context(&params("Other", "X"), targets()).is_err());
}

#[test]
fn command_line_params() {
    let p = RenameProject { project: "root".into(), new_name: "Foo".into() }.into_params(true);
    assert_eq!((p.project_root.as_str(), p.new_name.as_str(), p.verbose), ("root", "Foo", true));
    let p = RenamePlugin { project: "root".into(), plugin: "Pl".into(), new_name: "Foo".into() }.into_params(false);
    assert_eq!((p.project_root.as_str(), p.plugin.as_str(), p.new_name.as_str(), p.verbose), ("root", "Pl", "Foo", false));
    let p = RenameTarget { project: "root".into(), target: "T".into(), new_name: "Foo".into() }.into_params(true);
    assert_eq!((p.project_root.as_str(), p.target.as_str(), p.new_name.as_str(), p.verbose), ("root", "T", "Foo", true));
    let p = RenameModule { project: "root".into(), module: "M".into(), new_name: "Foo".into() }.into_params(false);
    assert_eq!((p.project_root.as_str(), p.module.as_str(), p.new_name.as_str(), p.verbose), ("root", "M", "Foo", false));
}
