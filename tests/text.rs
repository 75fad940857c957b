use renom::digest::{backup_file_name, to_hex};
use renom::ini_edit::{add_entry, set_entry};
use renom::paths::{join, with_extension, with_file_name};
use renom::pattern::{matches_pattern, replace_all_matches};

#[test]
fn hex_encoding() {
    assert_eq!(to_hex(&vec![0x00, 0x0f, 0xa5, 0xff]), "000fa5ff");
    assert_eq!(to_hex(&vec![]), "");
}

#[test]
fn backup_name_is_sha256_hex() {
    assert_eq!(backup_file_name(""), "e3b0c44298fc1c149afbf4c8996fb92427ae41e4649b934ca495991b7852b855");
    assert_eq!(backup_file_name("hello world"), "b94d27b9934d3e08a52e52d7da7dabfac484efe37a5380ee9088f7ace2efcde9");
}

#[test]
fn joining_paths() {
    assert_eq!(join("root", "Config/DefaultEngine.ini"), "root/Config/DefaultEngine.ini");
    assert_eq!(join("root/", "a"), "root/a");
    assert_eq!(join("", "a"), "a");
    assert_eq!(join("root", "/abs"), "/abs");
}

#[test]
fn extensions_and_file_names() {
    assert_eq!(with_extension("root/MyGame", "uproject"), "root/MyGame.uproject");
    assert_eq!(with_extension("Source/Foo", "Target.cs"), "Source/Foo.Target.cs");
    assert_eq!(with_file_name("/projects/MyGame", "Foo"), "/projects/Foo");
}

#[test]
fn replacing_all_matches() {
    assert_eq!(replace_all_matches("OldName", "OldName::Init()", "NewName"), Some("NewName::Init()".to_string()));
    assert_eq!(replace_all_matches("a", "banana", "o"), Some("bonono".to_string()));
    assert_eq!(replace_all_matches("(", "x", "y"), None);
}

#[test]
fn matching_patterns() {
    assert_eq!(matches_pattern("^[_[[:alnum:]]]*$", "Foo_1"), Some(true));
    assert_eq!(matches_pattern("^[_[[:alnum:]]]*$", "Foo-1"), Some(false));
    assert_eq!(matches_pattern("(", "x"), None);
}

#[test]
fn ini_set_versus_add() {
    assert_eq!(set_entry("[A]\nx=1\n", "A", "x", "2"), Ok("[A]\nx=2\n".to_string()));
    assert_eq!(add_entry("[A]\nx=1\n", "A", "x", "2"), Ok("[A]\nx=1\nx=2\n".to_string()));
}

#[test]
fn ini_missing_section_is_created() {
    assert_eq!(set_entry("[A]\nx=1\n", "B", "y", "2"), Ok("[A]\nx=1\n\n[B]\ny=2\n".to_string()));
    assert_eq!(add_entry("", "B", "y", "2"), Ok("[B]\ny=2\n".to_string()));
}

#[test]
fn ini_set_removes_repeated_keys() {
    assert_eq!(set_entry("[A]\nx=1\ny=0\nx=3\n", "A", "x", "2"), Ok("[A]\ny=0\nx=2\n".to_string()));
}

#[test]
fn ini_backslashes_and_quotes_are_kept() {
    assert_eq!(
        set_entry("[A]\npath=C:\\Windows\nq=\"x\"\n", "A", "k", "a\\b"),
        Ok("[A]\npath=C:\\Windows\nq=\"x\"\nk=a\\b\n".to_string())
    );
}

#[test]
fn ini_leading_byte_order_mark_is_dropped() {
    assert_eq!(set_entry("\u{feff}[A]\nx=1\n", "A", "x", "2"), Ok("[A]\nx=2\n".to_string()));
    assert_eq!(add_entry("\u{feff}[A]\nx=1\n", "A", "y", "2"), Ok("[A]\nx=1\ny=2\n".to_string()));
}

#[test]
fn ini_parse_error_names_its_place() {
    let e = set_entry("[A\nx=1\n", "A", "x", "2").unwrap_err();
    let place: Vec<&str> = e.splitn(3, |c: char| c == ':' || c == ' ').collect();
    assert!(place.len() == 3 && place[0].parse::<usize>().is_ok() && place[1].parse::<usize>().is_ok());
    assert_eq!(add_entry("[A\nx=1\n", "A", "x", "2"), Err(e));
}
