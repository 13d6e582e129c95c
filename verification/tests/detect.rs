use radon::detect::{
    detect, detect_route, file_to_inspect, find_build_file, find_marker, tools_declared,
    tools_required, DetectError, Detection,
};
use radon::kind::BuildKind;

const ALL: [BuildKind; 8] = [
    BuildKind::Make,
    BuildKind::Autotools,
    BuildKind::Cargo,
    BuildKind::Cmake,
    BuildKind::Meson,
    BuildKind::Ninja,
    BuildKind::Nimble,
    BuildKind::Stack,
];

fn names(items: &[&str]) -> Vec<String> {
    items.iter().map(|s| s.to_string()).collect()
}

/// Marker files of a kind: its fixed names, and for Nimble some package
/// files.
fn markers_of(k: BuildKind) -> Vec<String> {
    if k == BuildKind::Nimble {
        names(&["foo.nimble", "a.b.nimble"])
    } else {
        k.markers()
    }
}

#[test]
fn a_lone_marker_selects_its_kind() {
    for k in ALL {
        for m in markers_of(k) {
            let files = vec![m.clone()];
            assert_eq!(detect_route(&files), Detection::Marked(k), "marker {}", m);
            let d = detect(&files, "", &Vec::new()).unwrap();
            assert_eq!(d.kind, k);
            assert_eq!(d.manifest, Some(m));
        }
    }
}

#[test]
fn no_kind_is_selected_without_its_marker() {
    for k in ALL {
        let mut files = Vec::new();
        for other in ALL {
            if other != k {
                files.extend(markers_of(other));
            }
        }
        assert!(detect_route(&files) != Detection::Marked(k));
        assert_eq!(find_marker(&files, k), None);
    }
}

#[test]
fn an_empty_workspace_has_no_build_system() {
    assert_eq!(detect_route(&Vec::new()), Detection::Nothing);
    assert_eq!(detect(&Vec::new(), "", &Vec::new()).err(), Some(DetectError::NoBuildSystem));
    let files = names(&["README.md", "src", "Makefile.am", "cargo.toml"]);
    assert_eq!(detect(&files, "", &Vec::new()).err(), Some(DetectError::NoBuildSystem));
}

#[test]
fn markers_are_tried_in_a_fixed_order() {
    let mut files: Vec<String> = Vec::new();
    for k in ALL.iter().rev() {
        files.extend(markers_of(*k));
        assert_eq!(detect_route(&files), Detection::Marked(*k));
    }
}

#[test]
fn the_first_makefile_in_order_is_the_build_file() {
    let files = names(&["GNUMakefile", "makefile"]);
    assert_eq!(find_marker(&files, BuildKind::Make), Some("makefile".to_string()));
    let all = names(&["GNUMakefile", "makefile", "Makefile"]);
    assert_eq!(find_marker(&all, BuildKind::Make), Some("Makefile".to_string()));
}

#[test]
fn a_manifest_wins_over_every_marker() {
    let mut files: Vec<String> = Vec::new();
    for k in ALL {
        files.extend(markers_of(k));
    }
    files.push("radon.json".to_string());
    assert_eq!(detect_route(&files), Detection::Manifest);
    assert_eq!(file_to_inspect(&files), Some("radon.json".to_string()));
    let text = r#"{"build_system": "stack", "dependencies": ["ghc"], "flags": ["--fast"]}"#;
    let d = detect(&files, text, &names(&["-v"])).unwrap();
    assert_eq!(d.kind, BuildKind::Stack);
    assert_eq!(d.tools, vec!["ghc"]);
    assert_eq!(d.flags, vec!["--fast", "-v"]);
    assert_eq!(d.manifest, Some("stack.yaml".to_string()));
}

#[test]
fn a_manifest_alone_describes_the_workspace() {
    let files = names(&["radon.json"]);
    let d = detect(&files, r#"{"dependencies": ["foo"]}"#, &Vec::new()).unwrap();
    assert_eq!(d.kind, BuildKind::Make);
    assert_eq!(d.tools, vec!["foo", "make"]);
    assert_eq!(d.manifest, None);
}

#[test]
fn a_manifest_that_cannot_be_read_is_an_error() {
    let files = names(&["radon.json", "Makefile"]);
    assert_eq!(detect(&files, "{", &Vec::new()).err(), Some(DetectError::InvalidManifest));
    assert_eq!(detect(&files, "", &Vec::new()).err(), Some(DetectError::InvalidManifest));
}

#[test]
fn a_manifest_of_an_unknown_kind_is_an_error() {
    let files = names(&["radon.json"]);
    assert_eq!(
        detect(&files, r#"{"build_system": "bazel"}"#, &Vec::new()).err(),
        Some(DetectError::UnknownKind)
    );
}

#[test]
fn a_make_project_declares_its_tools_and_needs_make() {
    let files = names(&["main.c", "Makefile"]);
    assert_eq!(file_to_inspect(&files), Some("Makefile".to_string()));
    let d = detect(&files, "# DEPENDENCIES: foo,bar\nall:\n", &names(&["-j4"])).unwrap();
    assert_eq!(d.kind, BuildKind::Make);
    assert_eq!(d.tools, vec!["foo", "bar", "make"]);
    assert_eq!(d.flags, vec!["-j4"]);
    assert_eq!(d.manifest, Some("Makefile".to_string()));
}

#[test]
fn make_is_appended_even_where_it_is_declared() {
    assert_eq!(tools_required(BuildKind::Make, names(&["make"])), vec!["make", "make"]);
    assert_eq!(tools_required(BuildKind::Cmake, names(&["cmake"])), vec!["cmake", "make"]);
    assert_eq!(tools_required(BuildKind::Cargo, names(&["a"])), vec!["a"]);
    assert_eq!(tools_required(BuildKind::Make, Vec::new()), vec!["make"]);
}

#[test]
fn the_tools_of_each_kind() {
    assert_eq!(tools_declared(BuildKind::Make, "# DEPENDENCIES: a"), vec!["a"]);
    assert_eq!(tools_declared(BuildKind::Autotools, "AC_PROG_CC"), vec!["gcc"]);
    assert_eq!(
        tools_declared(BuildKind::Cargo, "[package.metadata.radon]\ndependencies = [\"x\"]"),
        vec!["x"]
    );
    assert_eq!(tools_declared(BuildKind::Cmake, "# DEPENDENCIES: a"), vec!["cmake"]);
    assert_eq!(tools_declared(BuildKind::Meson, ""), vec!["meson", "ninja"]);
    assert_eq!(tools_declared(BuildKind::Ninja, ""), vec!["ninja"]);
    assert_eq!(tools_declared(BuildKind::Nimble, ""), vec!["nim", "nimble"]);
    assert_eq!(tools_declared(BuildKind::Stack, ""), vec!["stack"]);
}

#[test]
fn a_cmake_project_needs_cmake_and_make() {
    let d = detect(&names(&["CMakeLists.txt"]), "", &Vec::new()).unwrap();
    assert_eq!(d.tools, vec!["cmake", "make"]);
    assert_eq!(file_to_inspect(&names(&["CMakeLists.txt"])), None);
}

#[test]
fn the_inspected_file_of_each_route() {
    assert_eq!(file_to_inspect(&names(&["configure"])), Some("configure".to_string()));
    assert_eq!(file_to_inspect(&names(&["Cargo.toml"])), Some("Cargo.toml".to_string()));
    assert_eq!(file_to_inspect(&names(&["GNUMakefile"])), Some("GNUMakefile".to_string()));
    assert_eq!(file_to_inspect(&names(&["meson.build"])), None);
    assert_eq!(file_to_inspect(&Vec::new()), None);
}

#[test]
fn build_files_of_kinds_that_a_manifest_declares() {
    let none: Vec<String> = Vec::new();
    assert_eq!(find_build_file(&none, BuildKind::Make), None);
    assert_eq!(find_build_file(&none, BuildKind::Nimble), None);
    assert_eq!(find_build_file(&none, BuildKind::Autotools), Some("configure".to_string()));
    assert_eq!(find_build_file(&none, BuildKind::Cargo), Some("Cargo.toml".to_string()));
    assert_eq!(find_build_file(&none, BuildKind::Cmake), Some("CMakeLists.txt".to_string()));
    assert_eq!(find_build_file(&none, BuildKind::Meson), Some("meson.build".to_string()));
    assert_eq!(find_build_file(&none, BuildKind::Ninja), Some("build.ninja".to_string()));
    assert_eq!(find_build_file(&none, BuildKind::Stack), Some("stack.yaml".to_string()));
}

#[test]
fn a_lone_nimble_package_file_selects_nimble() {
    let files = names(&["foo.nimble"]);
    assert_eq!(detect_route(&files), Detection::Marked(BuildKind::Nimble));
    let d = detect(&files, "", &Vec::new()).unwrap();
    assert_eq!(d.kind, BuildKind::Nimble);
    assert_eq!(d.manifest, Some("foo.nimble".to_string()));
    assert_eq!(d.tools, vec!["nim", "nimble"]);
}

#[test]
fn the_first_package_file_of_the_listing_is_the_build_file() {
    let files = names(&["README", "z.nimble", "a.nimble"]);
    assert_eq!(find_marker(&files, BuildKind::Nimble), Some("z.nimble".to_string()));
    assert_eq!(find_build_file(&files, BuildKind::Nimble), Some("z.nimble".to_string()));
    assert_eq!(find_marker(&names(&[".nimble", "nimble"]), BuildKind::Nimble), None);
}
