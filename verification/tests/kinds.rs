use radon::kind::BuildKind;

const ALL: [BuildKind; 8] = [
    BuildKind::Make,
    BuildKind::Autotools,
    BuildKind::Cargo,
    BuildKind::Cmake,
    BuildKind::Meson,
    BuildKind::Ninja,
    BuildKind::Nimble,
    BuildKind::Stack,
];

#[test]
fn tags_name_their_kinds() {
    assert_eq!(BuildKind::from_name("make"), Some(BuildKind::Make));
    assert_eq!(BuildKind::from_name("autotools"), Some(BuildKind::Autotools));
    assert_eq!(BuildKind::from_name("cargo"), Some(BuildKind::Cargo));
    assert_eq!(BuildKind::from_name("cmake"), Some(BuildKind::Cmake));
    assert_eq!(BuildKind::from_name("meson"), Some(BuildKind::Meson));
    assert_eq!(BuildKind::from_name("ninja"), Some(BuildKind::Ninja));
    assert_eq!(BuildKind::from_name("nimble"), Some(BuildKind::Nimble));
    assert_eq!(BuildKind::from_name("stack"), Some(BuildKind::Stack));
}

#[test]
fn other_texts_name_no_kind() {
    assert_eq!(BuildKind::from_name("CMake"), None);
    assert_eq!(BuildKind::from_name(""), None);
    assert_eq!(BuildKind::from_name("bazel"), None);
    assert_eq!(BuildKind::from_name("make "), None);
}

#[test]
fn every_kind_is_found_again_from_its_tag() {
    for k in ALL {
        assert_eq!(BuildKind::from_name(&k.name()), Some(k));
    }
}

#[test]
fn labels_are_shown_in_their_own_spelling() {
    let labels: Vec<String> = ALL.iter().map(|k| k.label()).collect();
    assert_eq!(
        labels,
        vec!["Make", "Autotools", "Cargo", "CMake", "Meson", "Ninja", "Nimble", "Stack"]
    );
}

#[test]
fn markers_of_each_kind() {
    assert_eq!(BuildKind::Make.markers(), vec!["Makefile", "makefile", "GNUMakefile"]);
    assert_eq!(BuildKind::Autotools.markers(), vec!["configure"]);
    assert_eq!(BuildKind::Cargo.markers(), vec!["Cargo.toml"]);
    assert_eq!(BuildKind::Cmake.markers(), vec!["CMakeLists.txt"]);
    assert_eq!(BuildKind::Meson.markers(), vec!["meson.build"]);
    assert_eq!(BuildKind::Ninja.markers(), vec!["build.ninja"]);
    assert_eq!(BuildKind::Nimble.markers(), Vec::<String>::new());
    assert_eq!(BuildKind::Stack.markers(), vec!["stack.yaml"]);
}

#[test]
fn drivers_of_each_kind() {
    assert_eq!(BuildKind::Make.drivers(), Vec::<String>::new());
    assert_eq!(BuildKind::Autotools.drivers(), Vec::<String>::new());
    assert_eq!(BuildKind::Cargo.drivers(), Vec::<String>::new());
    assert_eq!(BuildKind::Cmake.drivers(), vec!["cmake"]);
    assert_eq!(BuildKind::Meson.drivers(), vec!["meson", "ninja"]);
    assert_eq!(BuildKind::Ninja.drivers(), vec!["ninja"]);
    assert_eq!(BuildKind::Nimble.drivers(), vec!["nim", "nimble"]);
    assert_eq!(BuildKind::Stack.drivers(), vec!["stack"]);
}

#[test]
fn make_and_cmake_need_make() {
    for k in ALL {
        assert_eq!(k.needs_make(), k == BuildKind::Make || k == BuildKind::Cmake);
    }
}

#[test]
fn a_nimble_project_is_marked_by_a_package_file_of_any_name() {
    for name in ["foo.nimble", "a.nimble", "my.pkg.nimble", "*.nimble"] {
        assert!(BuildKind::Nimble.marks(name), "name {:?}", name);
        assert!(radon::kind::nimble_name(name));
    }
    for name in [".nimble", "nimble", "foo.nimble.bak", "foo.NIMBLE", "foo.nim", ""] {
        assert!(!BuildKind::Nimble.marks(name), "name {:?}", name);
    }
}

#[test]
fn fixed_markers_mark_their_kind_and_no_other() {
    for k in ALL {
        for m in k.markers() {
            for other in ALL {
                assert_eq!(other.marks(&m), other == k, "marker {:?}", m);
            }
        }
    }
    assert!(!BuildKind::Make.marks("Makefile.am"));
    assert!(!BuildKind::Cargo.marks("cargo.toml"));
}
