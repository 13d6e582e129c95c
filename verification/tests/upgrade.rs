use radon::command::{Exit, Invocation};
use radon::fetch::Host;
use radon::fingerprint::fingerprint;
use radon::install::{install_single, Action, Event, Pipeline};
use radon::registry::{InstalledPackage, Registry};
use radon::upgrade::{
    changed, choose_branch, confirmed, get_remote_branches, read_fresh_version, read_record,
    upgrade, upgrade_targets, ChoiceError, Stored, Upgrade, UpgradeAction, UpgradeEvent,
    UpgradeOutcome, UpgradeStage,
};

fn entry(name: &str) -> InstalledPackage {
    InstalledPackage {
        name: name.to_string(),
        source: None,
        build_system: "make".to_string(),
        location: format!("/usr/local/bin/{}", name),
        build_file: Some("Makefile".to_string()),
        hash: Some(fingerprint(b"all:\n")),
        version: None,
    }
}

fn cargo_entry(name: &str, manifest: &str, version: Option<&str>) -> InstalledPackage {
    InstalledPackage {
        name: name.to_string(),
        source: Some("gitlab".to_string()),
        build_system: "cargo".to_string(),
        location: format!("/usr/local/bin/{}", name),
        build_file: Some("Cargo.toml".to_string()),
        hash: Some(fingerprint(manifest.as_bytes())),
        version: version.map(|v| v.to_string()),
    }
}

fn metadata(branch: Option<&str>) -> String {
    let mut text = String::new();
    text.push_str("hash = \"not looked at\"\n");
    text.push_str("version = \"not looked at\"\n");
    if let Some(b) = branch {
        text.push_str(&format!("branch = \"{}\"\n", b));
    }
    text.push_str("repo_url = \"https://example.org/o/tool\"\n");
    text
}

fn end_of(a: UpgradeAction) -> UpgradeOutcome {
    match a {
        UpgradeAction::Finish(o) => o,
        _ => panic!("the end was expected"),
    }
}

fn run_of(a: UpgradeAction) -> Invocation {
    match a {
        UpgradeAction::Run(r) | UpgradeAction::Capture(r) => r,
        _ => panic!("a run was expected"),
    }
}

/// Brings an upgrade of `tool` to the point where the build file is
/// compared with the entry `e`.
fn up_to_compare(u: &mut Upgrade, e: InstalledPackage) {
    assert!(matches!(upgrade(u, UpgradeEvent::Begin), UpgradeAction::Lookup));
    assert!(matches!(
        upgrade(u, UpgradeEvent::Registry(vec![entry("other"), e])),
        UpgradeAction::LoadRecord(_, _)
    ));
    assert!(matches!(
        upgrade(u, UpgradeEvent::Record(Stored::Text(Some(metadata(Some("main")))))),
        UpgradeAction::Reset(_)
    ));
    assert!(matches!(upgrade(u, UpgradeEvent::Done), UpgradeAction::Run(_)));
    assert!(matches!(
        upgrade(u, UpgradeEvent::Exited(Exit::Success)),
        UpgradeAction::ReadBuildFile(_)
    ));
    assert_eq!(u.stage, UpgradeStage::Comparing);
}

#[test]
fn a_record_says_where_the_sources_come_from() {
    let r = read_record(
        "hash = \"abc\"\nbranch = \"main\"\nrepo_url = \"https://x/y\"\nbuild_file = \"Cargo.toml\"\n",
    );
    assert_eq!(r.branch, Some("main".to_string()));
    assert_eq!(r.repo_url, "https://x/y");
}

#[test]
fn a_record_without_values_is_empty() {
    let r = read_record("");
    assert_eq!(r.branch, None);
    assert_eq!(r.repo_url, "");
}

#[test]
fn any_difference_from_the_entry_is_a_change() {
    let mut e = entry("tool");
    e.hash = Some("h".to_string());
    e.version = Some("1".to_string());
    assert!(!changed(&e, "h", &Some("1".to_string())));
    assert!(changed(&e, "h2", &Some("1".to_string())));
    assert!(changed(&e, "h", &Some("2".to_string())));
    assert!(changed(&e, "h", &None));
    assert!(changed(&e, "", &None));
}

#[test]
fn a_missing_version_counts_as_the_empty_one() {
    let mut e = entry("tool");
    e.hash = Some("h".to_string());
    e.version = None;
    assert!(!changed(&e, "h", &None));
    assert!(!changed(&e, "h", &Some("".to_string())));
    assert!(changed(&e, "h", &Some("1".to_string())));
    e.version = Some("".to_string());
    assert!(!changed(&e, "h", &None));
}

#[test]
fn an_entry_without_a_fingerprint_has_always_changed() {
    let mut e = entry("tool");
    e.hash = None;
    assert!(changed(&e, "", &None));
    assert!(changed(&e, "h", &None));
}

#[test]
fn only_a_cargo_manifest_states_a_version() {
    let text = Some("[package]\nversion = \"3.1.4\"\n".to_string());
    assert_eq!(read_fresh_version("Cargo.toml", &text), Some("3.1.4".to_string()));
    assert_eq!(read_fresh_version("Makefile", &text), None);
    assert_eq!(read_fresh_version("Cargo.toml", &None), None);
    assert_eq!(read_fresh_version("Cargo.toml", &Some("name = \"x\"".to_string())), None);
}

#[test]
fn branches_are_read_from_the_heads_of_the_remote() {
    let output = "1f2e\trefs/heads/main\n3a4b\trefs/heads/feature/x\n5c6d\trefs/tags/v1\nbroken\n\n7e8f  refs/heads/dev  extra\n";
    assert_eq!(get_remote_branches(output), vec!["main", "feature/x", "dev"]);
    assert_eq!(get_remote_branches(""), Vec::<String>::new());
}

#[test]
fn a_branch_is_chosen_by_its_number() {
    let branches: Vec<String> = ["main", "dev", "old"].iter().map(|s| s.to_string()).collect();
    assert_eq!(choose_branch("1", &branches), Ok("main".to_string()));
    assert_eq!(choose_branch(" 3\n", &branches), Ok("old".to_string()));
    assert_eq!(choose_branch("+2", &branches), Ok("dev".to_string()));
    assert_eq!(choose_branch("002", &branches), Ok("dev".to_string()));
}

#[test]
fn a_number_outside_the_list_is_no_selection() {
    let branches: Vec<String> = ["main", "dev"].iter().map(|s| s.to_string()).collect();
    assert_eq!(choose_branch("0", &branches), Err(ChoiceError::InvalidSelection));
    assert_eq!(choose_branch("3", &branches), Err(ChoiceError::InvalidSelection));
    assert_eq!(choose_branch("18446744073709551615", &branches), Err(ChoiceError::InvalidSelection));
    assert_eq!(choose_branch("1", &Vec::new()), Err(ChoiceError::InvalidSelection));
}

#[test]
fn what_is_no_number_is_no_input() {
    let branches: Vec<String> = ["main", "dev"].iter().map(|s| s.to_string()).collect();
    for a in ["", " ", "x", "1x", "-1", "+", "1 2", "1.0", "٣", "18446744073709551616",
        "99999999999999999999999999"]
    {
        assert_eq!(choose_branch(a, &branches), Err(ChoiceError::InvalidInput), "answer {:?}", a);
    }
}

#[test]
fn numbers_are_read_as_the_standard_library_reads_them() {
    let branches: Vec<String> = (0..12).map(|i| i.to_string()).collect();
    for a in ["1", "12", "13", "0", "+7", "-7", "++7", "07", " 5 ", "5a", "", "+", "１"] {
        let expected = match a.trim().parse::<usize>() {
            Ok(n) if n > 0 && n <= branches.len() => Ok(branches[n - 1].clone()),
            Ok(_) => Err(ChoiceError::InvalidSelection),
            Err(_) => Err(ChoiceError::InvalidInput),
        };
        assert_eq!(choose_branch(a, &branches), expected, "answer {:?}", a);
    }
}

#[test]
fn an_upgrade_looks_at_one_package_or_at_all() {
    let r = Registry::from_entries(vec![entry("a"), entry("b")]);
    assert_eq!(upgrade_targets(Some("x"), &r), vec!["x"]);
    assert_eq!(upgrade_targets(None, &r), vec!["a", "b"]);
    assert_eq!(upgrade_targets(None, &Registry::new()), Vec::<String>::new());
}

#[test]
fn an_upgrade_goes_ahead_where_nothing_is_asked_or_the_operator_accepts() {
    assert!(confirmed(true, &None));
    assert!(confirmed(true, &Some("n".to_string())));
    assert!(confirmed(false, &Some("y\n".to_string())));
    assert!(confirmed(false, &Some(" Y ".to_string())));
    assert!(!confirmed(false, &Some("".to_string())));
    assert!(!confirmed(false, &Some("yes".to_string())));
    assert!(!confirmed(false, &None));
}

#[test]
fn an_unchanged_package_is_left_alone() {
    let mut u = Upgrade::new("tool", None, true, "/home/u", "sudo");
    up_to_compare(&mut u, entry("tool"));
    let end = upgrade(&mut u, UpgradeEvent::BuildFile(true, Some(b"all:\n".to_vec()), None));
    assert_eq!(end_of(end), UpgradeOutcome::UpToDate);
    assert_eq!(u.stage, UpgradeStage::Done);
}

#[test]
fn an_unchanged_cargo_package_is_left_alone() {
    let manifest = "[package]\nname = \"tool\"\nversion = \"1.2.0\"\n";
    let mut u = Upgrade::new("tool", None, true, "/home/u", "sudo");
    up_to_compare(&mut u, cargo_entry("tool", manifest, Some("1.2.0")));
    let end = upgrade(
        &mut u,
        UpgradeEvent::BuildFile(true, Some(manifest.as_bytes().to_vec()), Some(manifest.to_string())),
    );
    assert_eq!(end_of(end), UpgradeOutcome::UpToDate);
}

#[test]
fn what_is_stored_beside_the_registry_does_not_decide() {
    let mut u = Upgrade::new("tool", None, true, "/home/u", "sudo");
    up_to_compare(&mut u, entry("tool"));
    assert_eq!(u.entry.as_ref().unwrap().hash, Some(fingerprint(b"all:\n")));
    let end = upgrade(&mut u, UpgradeEvent::BuildFile(true, Some(b"all:\n".to_vec()), None));
    assert_eq!(end_of(end), UpgradeOutcome::UpToDate);
}

#[test]
fn another_version_alone_is_a_change() {
    let manifest = "[package]\nname = \"tool\"\nversion = \"1.2.0\"\n";
    let mut u = Upgrade::new("tool", None, true, "/home/u", "sudo");
    up_to_compare(&mut u, cargo_entry("tool", manifest, Some("1.1.9")));
    assert!(matches!(
        upgrade(
            &mut u,
            UpgradeEvent::BuildFile(
                true,
                Some(manifest.as_bytes().to_vec()),
                Some(manifest.to_string())
            ),
        ),
        UpgradeAction::Install(_)
    ));
}

#[test]
fn a_changed_package_is_installed_anew() {
    let mut u = Upgrade::new("tool", None, true, "/home/u", "doas");
    assert_eq!(u.stage, UpgradeStage::Start);
    assert!(matches!(upgrade(&mut u, UpgradeEvent::Begin), UpgradeAction::Lookup));
    let mut old = entry("tool");
    old.source = Some("codeberg".to_string());
    match upgrade(&mut u, UpgradeEvent::Registry(vec![entry("other"), old])) {
        UpgradeAction::LoadRecord(dir, file) => {
            assert_eq!(dir, "/var/lib/radon/buildfiles/tool");
            assert_eq!(file, "/var/lib/radon/buildfiles/tool/metadata.toml");
        }
        _ => panic!("the record was expected to be read"),
    }
    assert_eq!(u.entry.as_ref().unwrap().name, "tool");
    match upgrade(&mut u, UpgradeEvent::Record(Stored::Text(Some(metadata(Some("stable")))))) {
        UpgradeAction::Reset(dir) => assert_eq!(dir, "/tmp/radon/upgrade/tool"),
        _ => panic!("the scratch directory was expected to be reset"),
    }
    let clone = run_of(upgrade(&mut u, UpgradeEvent::Done));
    assert_eq!(clone.program, "git");
    assert_eq!(
        clone.args,
        vec![
            "clone",
            "--depth=1",
            "--branch",
            "stable",
            "https://example.org/o/tool",
            "/tmp/radon/upgrade/tool"
        ]
    );
    match upgrade(&mut u, UpgradeEvent::Exited(Exit::Success)) {
        UpgradeAction::ReadBuildFile(path) => assert_eq!(path, "/tmp/radon/upgrade/tool/Makefile"),
        _ => panic!("the build file was expected to be read"),
    }
    match upgrade(&mut u, UpgradeEvent::BuildFile(true, Some(b"all: new\n".to_vec()), None)) {
        UpgradeAction::Install(job) => {
            assert_eq!(job.package, "tool");
            assert_eq!(job.host, Host::Codeberg);
            assert!(!job.local);
            assert_eq!(job.branch, Some("stable".to_string()));
            assert_eq!(job.patches, None);
            assert_eq!(job.flags, Vec::<String>::new());
            assert!(job.yes);
            assert_eq!(job.home, "/home/u");
            assert_eq!(job.privilege, "doas");
            let known = job.known.unwrap();
            assert_eq!(known.name, "tool");
            assert_eq!(known.address, "https://example.org/o/tool");
            assert_eq!(known.hash, fingerprint(b"all: new\n"));
            assert_eq!(known.version, None);
        }
        _ => panic!("an install was expected"),
    }
    let copy = run_of(upgrade(&mut u, UpgradeEvent::Done));
    assert_eq!(copy.program, "doas");
    assert_eq!(
        copy.args,
        vec!["cp", "-r", "/tmp/radon/upgrade/tool", "/var/lib/radon/buildfiles/tool"]
    );
    assert_eq!(end_of(upgrade(&mut u, UpgradeEvent::Exited(Exit::Failure))), UpgradeOutcome::Upgraded);
    assert_eq!(end_of(upgrade(&mut u, UpgradeEvent::Done)), UpgradeOutcome::OutOfOrder);
}

#[test]
fn the_new_entry_says_what_was_compared() {
    let manifest = "[package]\nname = \"tool\"\nversion = \"2.0.0\"\n";
    let mut u = Upgrade::new("tool", None, true, "/home/u", "sudo");
    up_to_compare(&mut u, cargo_entry("tool", "old", Some("1.0.0")));
    let job = match upgrade(
        &mut u,
        UpgradeEvent::BuildFile(true, Some(manifest.as_bytes().to_vec()), Some(manifest.to_string())),
    ) {
        UpgradeAction::Install(job) => job,
        _ => panic!("an install was expected"),
    };
    let mut p = Pipeline::new(job);
    assert!(matches!(install_single(&mut p, Event::Begin), Action::Reset(_)));
    match install_single(&mut p, Event::Done) {
        Action::Run(clone) => assert_eq!(
            clone.args,
            vec![
                "clone",
                "--depth=1",
                "https://example.org/o/tool",
                "--branch",
                "main",
                "/tmp/radon/builds/tool"
            ]
        ),
        _ => panic!("a clone was expected"),
    }
    install_single(&mut p, Event::Exited(Exit::Success));
    install_single(&mut p, Event::Listing(vec!["Cargo.toml".to_string()]));
    install_single(&mut p, Event::Content(Some(manifest.to_string())));
    install_single(&mut p, Event::Tools(Vec::new(), Vec::new()));
    install_single(&mut p, Event::Exited(Exit::Success));
    install_single(&mut p, Event::Content(Some(manifest.to_string())));
    install_single(
        &mut p,
        Event::Located(Some("/tmp/radon/builds/tool/target/release/tool".to_string())),
    );
    assert!(matches!(install_single(&mut p, Event::Exited(Exit::Success)), Action::Gather(_, _)));
    let before = vec![entry("a"), cargo_entry("tool", "old", Some("1.0.0")), entry("z")];
    let saved = match install_single(
        &mut p,
        Event::Records(before, Some(b"changed in between".to_vec()), Some("version = \"9\"".to_string())),
    ) {
        Action::Save(entries) => entries,
        _ => panic!("the registry was expected to be saved"),
    };
    assert_eq!(saved.len(), 3);
    assert_eq!(saved[0].name, "a");
    assert_eq!(saved[0].hash, entry("a").hash);
    assert_eq!(saved[1].name, "tool");
    assert_eq!(saved[1].hash, Some(fingerprint(manifest.as_bytes())));
    assert_eq!(saved[1].version, Some("2.0.0".to_string()));
    assert_eq!(saved[1].source, Some("gitlab".to_string()));
    assert_eq!(saved[1].build_system, "cargo");
    assert_eq!(saved[2].name, "z");
    assert_eq!(saved[2].location, "/usr/local/bin/z");
}

#[test]
fn the_branch_of_the_command_line_overrides_the_stored_one() {
    let mut u = Upgrade::new("tool", Some("next"), true, "/home/u", "sudo");
    upgrade(&mut u, UpgradeEvent::Begin);
    upgrade(&mut u, UpgradeEvent::Registry(vec![entry("tool")]));
    upgrade(&mut u, UpgradeEvent::Record(Stored::Text(Some(metadata(Some("stable"))))));
    let clone = run_of(upgrade(&mut u, UpgradeEvent::Done));
    assert_eq!(clone.args[3], "next");
}

#[test]
fn the_operator_is_asked_before_an_upgrade() {
    let manifest = "[package]\nversion = \"2.0\"\n";
    let mut old = cargo_entry("tool", "old", None);
    old.hash = Some("old".to_string());
    let mut u = Upgrade::new("tool", None, false, "/home/u", "sudo");
    up_to_compare(&mut u, old);
    match upgrade(
        &mut u,
        UpgradeEvent::BuildFile(true, Some(manifest.as_bytes().to_vec()), Some(manifest.to_string())),
    ) {
        UpgradeAction::Offer(old_version, new_version, old_hash, new_hash) => {
            assert_eq!(old_version, "");
            assert_eq!(new_version, "2.0");
            assert_eq!(old_hash, "old");
            assert_eq!(new_hash, fingerprint(manifest.as_bytes()));
        }
        _ => panic!("an offer was expected"),
    }
    let diff = run_of(upgrade(&mut u, UpgradeEvent::Answer("y\n".to_string())));
    assert_eq!(diff.program, "diff");
    assert_eq!(
        diff.args,
        vec!["-u", "/var/lib/radon/buildfiles/tool/Cargo.toml", "/tmp/radon/upgrade/tool/Cargo.toml"]
    );
    assert!(matches!(upgrade(&mut u, UpgradeEvent::Exited(Exit::Failure)), UpgradeAction::Confirm));
    assert_eq!(end_of(upgrade(&mut u, UpgradeEvent::Answer("n".to_string()))), UpgradeOutcome::Skipped);
}

#[test]
fn an_upgrade_goes_on_unless_it_is_declined() {
    let mut u = Upgrade::new("tool", None, false, "/home/u", "sudo");
    up_to_compare(&mut u, entry("tool"));
    upgrade(&mut u, UpgradeEvent::BuildFile(true, None, None));
    assert!(matches!(upgrade(&mut u, UpgradeEvent::Answer("".to_string())), UpgradeAction::Confirm));
    match upgrade(&mut u, UpgradeEvent::Answer("\n".to_string())) {
        UpgradeAction::Install(job) => {
            assert_eq!(job.known.unwrap().hash, fingerprint(b""));
        }
        _ => panic!("an install was expected"),
    }
}

#[test]
fn a_branch_is_asked_for_where_none_is_known() {
    let mut u = Upgrade::new("tool", None, true, "/home/u", "sudo");
    upgrade(&mut u, UpgradeEvent::Begin);
    upgrade(&mut u, UpgradeEvent::Registry(vec![entry("tool")]));
    upgrade(&mut u, UpgradeEvent::Record(Stored::Text(Some(metadata(None)))));
    let heads = run_of(upgrade(&mut u, UpgradeEvent::Done));
    assert_eq!(heads.program, "git");
    assert_eq!(heads.args, vec!["ls-remote", "--heads", "https://example.org/o/tool"]);
    match upgrade(
        &mut u,
        UpgradeEvent::Output(Some("a\trefs/heads/main\nb\trefs/heads/dev\n".to_string())),
    ) {
        UpgradeAction::Choose(branches) => assert_eq!(branches, vec!["main", "dev"]),
        _ => panic!("a choice was expected"),
    }
    let clone = run_of(upgrade(&mut u, UpgradeEvent::Answer("2\n".to_string())));
    assert_eq!(clone.args[3], "dev");
    assert_eq!(u.branch, Some("dev".to_string()));
}

#[test]
fn a_bad_choice_of_branch_ends_the_upgrade() {
    for (answer, outcome) in
        [("7", UpgradeOutcome::InvalidSelection), ("seven", UpgradeOutcome::InvalidInput)]
    {
        let mut u = Upgrade::new("tool", None, true, "/home/u", "sudo");
        upgrade(&mut u, UpgradeEvent::Begin);
        upgrade(&mut u, UpgradeEvent::Registry(vec![entry("tool")]));
        upgrade(&mut u, UpgradeEvent::Record(Stored::Text(Some(metadata(None)))));
        upgrade(&mut u, UpgradeEvent::Done);
        upgrade(&mut u, UpgradeEvent::Output(Some("a\trefs/heads/main\n".to_string())));
        assert_eq!(end_of(upgrade(&mut u, UpgradeEvent::Answer(answer.to_string()))), outcome);
    }
}

#[test]
fn a_remote_without_branches_ends_the_upgrade() {
    for output in [None, Some("".to_string()), Some("x\trefs/tags/v1\n".to_string())] {
        let mut u = Upgrade::new("tool", None, true, "/home/u", "sudo");
        upgrade(&mut u, UpgradeEvent::Begin);
        upgrade(&mut u, UpgradeEvent::Registry(vec![entry("tool")]));
        upgrade(&mut u, UpgradeEvent::Record(Stored::Text(Some(metadata(None)))));
        upgrade(&mut u, UpgradeEvent::Done);
        assert_eq!(end_of(upgrade(&mut u, UpgradeEvent::Output(output))), UpgradeOutcome::NoBranches);
    }
}

#[test]
fn a_package_that_is_not_installed_is_skipped() {
    let mut u = Upgrade::new("tool", None, true, "/home/u", "sudo");
    upgrade(&mut u, UpgradeEvent::Begin);
    assert_eq!(
        end_of(upgrade(&mut u, UpgradeEvent::Registry(vec![entry("other")]))),
        UpgradeOutcome::NotInstalled
    );
    assert!(u.entry.is_none());
}

#[test]
fn a_package_without_a_record_is_skipped() {
    for (found, outcome) in [
        (Stored::NoDirectory, UpgradeOutcome::NoBuildFiles),
        (Stored::NoFile, UpgradeOutcome::NoMetadata),
    ] {
        let mut u = Upgrade::new("tool", None, true, "/home/u", "sudo");
        upgrade(&mut u, UpgradeEvent::Begin);
        upgrade(&mut u, UpgradeEvent::Registry(vec![entry("tool")]));
        assert_eq!(end_of(upgrade(&mut u, UpgradeEvent::Record(found))), outcome);
    }
}

#[test]
fn a_record_without_an_address_ends_the_upgrade() {
    let mut u = Upgrade::new("tool", None, true, "/home/u", "sudo");
    upgrade(&mut u, UpgradeEvent::Begin);
    upgrade(&mut u, UpgradeEvent::Registry(vec![entry("tool")]));
    assert!(matches!(
        upgrade(&mut u, UpgradeEvent::Record(Stored::Text(None))),
        UpgradeAction::Reset(_)
    ));
    assert_eq!(end_of(upgrade(&mut u, UpgradeEvent::Done)), UpgradeOutcome::NoRepoUrl);
}

#[test]
fn a_failed_clone_ends_the_upgrade() {
    for e in [Exit::Failure, Exit::Unavailable] {
        let mut u = Upgrade::new("tool", Some("main"), true, "/home/u", "sudo");
        upgrade(&mut u, UpgradeEvent::Begin);
        upgrade(&mut u, UpgradeEvent::Registry(vec![entry("tool")]));
        upgrade(&mut u, UpgradeEvent::Record(Stored::Text(Some(metadata(None)))));
        upgrade(&mut u, UpgradeEvent::Done);
        assert_eq!(end_of(upgrade(&mut u, UpgradeEvent::Exited(e))), UpgradeOutcome::CloneFailed);
    }
}

#[test]
fn an_entry_without_a_build_file_ends_the_upgrade() {
    for file in [None, Some("".to_string())] {
        let mut e = entry("tool");
        e.build_file = file;
        let mut u = Upgrade::new("tool", Some("main"), true, "/home/u", "sudo");
        upgrade(&mut u, UpgradeEvent::Begin);
        upgrade(&mut u, UpgradeEvent::Registry(vec![e]));
        upgrade(&mut u, UpgradeEvent::Record(Stored::Text(Some(metadata(None)))));
        upgrade(&mut u, UpgradeEvent::Done);
        assert_eq!(
            end_of(upgrade(&mut u, UpgradeEvent::Exited(Exit::Success))),
            UpgradeOutcome::NoBuildFile
        );
    }
}

#[test]
fn a_build_file_that_is_gone_ends_the_upgrade() {
    let mut u = Upgrade::new("tool", None, true, "/home/u", "sudo");
    up_to_compare(&mut u, entry("tool"));
    assert_eq!(
        end_of(upgrade(&mut u, UpgradeEvent::BuildFile(false, None, None))),
        UpgradeOutcome::BuildFileMissing
    );
}
