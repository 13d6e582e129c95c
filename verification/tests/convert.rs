use radon::convert::{convert, converted_from, manifest_path, ConvertError};

#[test]
fn name_and_dependencies_are_read_off_the_manifest() {
    let c = convert(
        "[package]\nname = \"tool\"\nversion = \"1\"\n\n[dependencies]\nserde = \"1\"\nanyhow = { version = \"1\" }\n",
    )
    .ok()
    .unwrap();
    assert_eq!(c.name, Some("tool".to_string()));
    let mut deps = c.dependencies.unwrap();
    deps.sort();
    assert_eq!(deps, vec!["anyhow", "serde"]);
}

#[test]
fn what_is_missing_is_left_out() {
    let c = convert("").ok().unwrap();
    assert_eq!(c.name, None);
    assert_eq!(c.dependencies, None);
    let d = convert("[package]\nname = 4\n[dependencies]\n").ok().unwrap();
    assert_eq!(d.name, None);
    assert_eq!(d.dependencies, Some(Vec::new()));
}

#[test]
fn a_text_that_is_no_toml_is_refused() {
    assert_eq!(convert("[package").err(), Some(ConvertError::InvalidToml));
}

#[test]
fn dependencies_that_are_no_table_are_refused() {
    assert_eq!(
        convert("dependencies = \"serde\"\n").err(),
        Some(ConvertError::DependenciesNotTable)
    );
}

#[test]
fn a_parsed_cargo_manifest_is_converted_the_same_way() {
    let doc: toml::Value = "[package]\nname = \"x\"\n[dependencies]\na = \"1\"\n".parse().unwrap();
    let c = converted_from(&doc).ok().unwrap();
    assert_eq!(c.name, Some("x".to_string()));
    assert_eq!(c.dependencies, Some(vec!["a".to_string()]));
}

#[test]
fn the_manifest_is_written_next_to_the_cargo_manifest() {
    assert_eq!(manifest_path("Cargo.toml"), Some("radon.json".to_string()));
    assert_eq!(manifest_path("/src/tool/Cargo.toml"), Some("/src/tool/radon.json".to_string()));
    assert_eq!(manifest_path("../Cargo.toml"), Some("../radon.json".to_string()));
}

#[test]
fn only_cargo_manifests_are_converted() {
    assert_eq!(manifest_path("cargo.toml"), None);
    assert_eq!(manifest_path("/src/Cargo.toml.bak"), None);
    assert_eq!(manifest_path("/src/xCargo.toml"), None);
    assert_eq!(manifest_path("Cargo.toml/"), None);
    assert_eq!(manifest_path(""), None);
}
