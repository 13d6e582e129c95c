use radon::registry::{list, InstalledPackage, Registry};
use radon::remove::{pending, remove, Deletion, RemoveError};

fn entry(name: &str, kind: &str, location: &str) -> InstalledPackage {
    InstalledPackage {
        name: name.to_string(),
        source: None,
        build_system: kind.to_string(),
        location: location.to_string(),
        build_file: Some("Makefile".to_string()),
        hash: Some("00".to_string()),
        version: None,
    }
}

fn sample() -> Registry {
    Registry::from_entries(vec![
        entry("a", "make", "/usr/local/bin/a"),
        entry("b", "cargo", "/usr/local/bin/b"),
        entry("c", "cmake", "/home/u/.local/bin/c"),
    ])
}

fn names(r: &Registry) -> Vec<String> {
    r.entries.iter().map(|e| e.name.clone()).collect()
}

#[test]
fn a_new_registry_is_empty() {
    let r = Registry::new();
    assert_eq!(r.len(), 0);
    assert_eq!(r.names(), Vec::<String>::new());
    assert!(r.find("a").is_none());
}

#[test]
fn entries_are_found_by_name() {
    let r = sample();
    assert_eq!(r.len(), 3);
    assert_eq!(r.position("a"), Some(0));
    assert_eq!(r.position("c"), Some(2));
    assert_eq!(r.position("d"), None);
    assert_eq!(r.find("b").unwrap().build_system, "cargo");
    assert_eq!(r.names(), vec!["a", "b", "c"]);
}

#[test]
fn a_new_name_is_recorded_at_the_end() {
    let mut r = sample();
    r.record(entry("d", "ninja", "/usr/local/bin/d"));
    assert_eq!(names(&r), vec!["a", "b", "c", "d"]);
    let mut empty = Registry::new();
    empty.record(entry("x", "make", "/usr/local/bin/x"));
    assert_eq!(names(&empty), vec!["x"]);
}

#[test]
fn a_known_name_is_recorded_in_its_place() {
    let mut r = sample();
    r.record(entry("b", "meson", "/usr/local/bin/b2"));
    assert_eq!(names(&r), vec!["a", "b", "c"]);
    assert_eq!(r.entries[1].build_system, "meson");
    assert_eq!(r.entries[1].location, "/usr/local/bin/b2");
    assert_eq!(r.entries[0].build_system, "make");
    assert_eq!(r.entries[2].build_system, "cmake");
}

#[test]
fn removal_takes_out_exactly_one_entry() {
    let mut r = sample();
    let removed = r.remove("b").unwrap();
    assert_eq!(removed.name, "b");
    assert_eq!(removed.build_system, "cargo");
    assert_eq!(names(&r), vec!["a", "c"]);
    assert_eq!(r.entries[0].location, "/usr/local/bin/a");
    assert_eq!(r.entries[1].location, "/home/u/.local/bin/c");
}

#[test]
fn removing_an_unknown_name_changes_nothing() {
    let mut r = sample();
    assert!(r.remove("zzz").is_none());
    assert_eq!(names(&r), vec!["a", "b", "c"]);
    let mut empty = Registry::new();
    assert!(empty.remove("a").is_none());
    assert_eq!(empty.len(), 0);
}

#[test]
fn removal_of_the_first_of_two_entries_of_one_name() {
    let mut r = Registry::from_entries(vec![
        entry("a", "make", "/1"),
        entry("a", "cargo", "/2"),
    ]);
    let removed = r.remove("a").unwrap();
    assert_eq!(removed.location, "/1");
    assert_eq!(r.len(), 1);
    assert_eq!(r.entries[0].location, "/2");
}

#[test]
fn a_system_program_is_deleted_under_the_elevation_command() {
    let mut r = sample();
    let x = remove(&mut r, "a", "doas").ok().unwrap();
    assert_eq!(x.entry.name, "a");
    match x.deletion {
        Deletion::Elevated(run) => {
            assert_eq!(run.program, "doas");
            assert_eq!(run.args, vec!["rm", "-f", "/usr/local/bin/a"]);
        }
        Deletion::Direct(_) => panic!("a program under /usr is deleted with privilege"),
    }
    assert_eq!(names(&r), vec!["b", "c"]);
}

#[test]
fn a_user_program_is_deleted_directly() {
    let mut r = sample();
    let x = remove(&mut r, "c", "sudo").ok().unwrap();
    match x.deletion {
        Deletion::Direct(path) => assert_eq!(path, "/home/u/.local/bin/c"),
        Deletion::Elevated(_) => panic!("a program outside /usr needs no privilege"),
    }
    assert_eq!(names(&r), vec!["a", "b"]);
}

#[test]
fn removing_what_is_not_installed_fails() {
    let mut r = sample();
    assert_eq!(remove(&mut r, "nope", "sudo").err(), Some(RemoveError::NotFound));
    assert_eq!(names(&r), vec!["a", "b", "c"]);
}

#[test]
fn entries_are_copied_field_by_field() {
    let e = InstalledPackage {
        name: "n".to_string(),
        source: Some("gitlab".to_string()),
        build_system: "cargo".to_string(),
        location: "/l".to_string(),
        build_file: None,
        hash: Some("h".to_string()),
        version: Some("1".to_string()),
    };
    let c = e.copy();
    assert_eq!(c.name, "n");
    assert_eq!(c.source, Some("gitlab".to_string()));
    assert_eq!(c.build_system, "cargo");
    assert_eq!(c.location, "/l");
    assert_eq!(c.build_file, None);
    assert_eq!(c.hash, Some("h".to_string()));
    assert_eq!(c.version, Some("1".to_string()));
}

#[test]
fn the_list_shows_name_and_build_system() {
    assert_eq!(list(&sample()), vec!["- a (make)", "- b (cargo)", "- c (cmake)"]);
    assert_eq!(list(&Registry::new()), vec!["No packages installed"]);
}

#[test]
fn a_registry_is_well_formed_where_names_are_unique() {
    assert!(Registry::new().is_well_formed());
    assert!(sample().is_well_formed());
    let twice = Registry::from_entries(vec![
        entry("a", "make", "/1"),
        entry("b", "make", "/2"),
        entry("a", "cargo", "/3"),
    ]);
    assert!(!twice.is_well_formed());
    let mut r = sample();
    r.record(entry("a", "ninja", "/new"));
    r.remove("b");
    assert!(r.is_well_formed());
}

#[test]
fn a_program_that_is_gone_is_not_deleted() {
    let mut r = sample();
    let x = remove(&mut r, "c", "sudo").ok().unwrap();
    assert!(pending(x.deletion, false).is_none());
    assert_eq!(names(&r), vec!["a", "b"]);
    let mut q = sample();
    let y = remove(&mut q, "a", "sudo").ok().unwrap();
    assert!(matches!(pending(y.deletion, true), Some(Deletion::Elevated(_))));
}
