use radon::manifest::{manifest_from, parse_radon_json};

#[test]
fn a_manifest_declares_kind_tools_and_flags() {
    let m = parse_radon_json(
        r#"{"build_system": "cmake", "dependencies": ["cmake", "gcc"], "flags": ["-DX=1"]}"#,
    )
    .unwrap();
    assert_eq!(m.build_system, "cmake");
    assert_eq!(m.dependencies, vec!["cmake", "gcc"]);
    assert_eq!(m.flags, vec!["-DX=1"]);
}

#[test]
fn a_manifest_without_a_kind_is_a_make_project() {
    let m = parse_radon_json("{}").unwrap();
    assert_eq!(m.build_system, "make");
    assert_eq!(m.dependencies, Vec::<String>::new());
    assert_eq!(m.flags, Vec::<String>::new());
    let n = parse_radon_json(r#"{"build_system": 3}"#).unwrap();
    assert_eq!(n.build_system, "make");
}

#[test]
fn only_the_texts_of_the_lists_count() {
    let m = parse_radon_json(
        r#"{"dependencies": ["a", 1, null, "b", ["c"]], "flags": "not a list"}"#,
    )
    .unwrap();
    assert_eq!(m.dependencies, vec!["a", "b"]);
    assert_eq!(m.flags, Vec::<String>::new());
}

#[test]
fn a_document_that_is_no_object_declares_nothing() {
    let m = parse_radon_json("[1, 2]").unwrap();
    assert_eq!(m.build_system, "make");
    assert_eq!(m.dependencies, Vec::<String>::new());
}

#[test]
fn an_invalid_manifest_is_refused() {
    assert!(parse_radon_json("").is_none());
    assert!(parse_radon_json("{").is_none());
    assert!(parse_radon_json("{\"a\": }").is_none());
}

#[test]
fn a_parsed_manifest_is_read_the_same_way() {
    let doc: serde_json::Value =
        serde_json::from_str(r#"{"build_system": "stack", "flags": ["--fast"]}"#).unwrap();
    let m = manifest_from(&doc);
    assert_eq!(m.build_system, "stack");
    assert_eq!(m.dependencies, Vec::<String>::new());
    assert_eq!(m.flags, vec!["--fast"]);
}
