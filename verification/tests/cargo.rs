use radon::cargo::{
    binary_name_in, cargo_deps_in, get_cargo_binary_name, parse_cargo_deps, read_cargo_version,
};

const MANIFEST: &str = r#"
[package]
name = "tool"
version = "0.3.1"

[package.metadata.radon]
dependencies = ["pkg-config", 7, "openssl"]

[dependencies]
serde = "1"
"#;

#[test]
fn cargo_deps_are_the_texts_of_the_metadata_list() {
    assert_eq!(parse_cargo_deps(MANIFEST), vec!["pkg-config", "openssl"]);
}

#[test]
fn cargo_deps_are_empty_without_the_metadata() {
    assert_eq!(parse_cargo_deps("[package]\nname = \"x\"\n"), Vec::<String>::new());
    assert_eq!(parse_cargo_deps(""), Vec::<String>::new());
    assert_eq!(
        parse_cargo_deps("[package.metadata.radon]\ndependencies = \"gcc\"\n"),
        Vec::<String>::new()
    );
}

#[test]
fn cargo_deps_of_an_invalid_manifest_are_empty() {
    assert_eq!(parse_cargo_deps("this is [not toml"), Vec::<String>::new());
}

#[test]
fn cargo_deps_of_a_parsed_document() {
    let doc: toml::Value = MANIFEST.parse().unwrap();
    assert_eq!(cargo_deps_in(&doc), vec!["pkg-config", "openssl"]);
}

#[test]
fn the_binary_name_is_that_of_the_first_named_target() {
    let text = "[package]\nname = \"pkg\"\n\n[[bin]]\npath = \"src/a.rs\"\n\n[[bin]]\nname = \"second\"\n\n[[bin]]\nname = \"third\"\n";
    assert_eq!(get_cargo_binary_name(text), Some("second".to_string()));
    let doc: toml::Value = text.parse().unwrap();
    assert_eq!(binary_name_in(&doc), Some("second".to_string()));
}

#[test]
fn the_binary_name_falls_back_to_the_package() {
    assert_eq!(get_cargo_binary_name(MANIFEST), Some("tool".to_string()));
    assert_eq!(
        get_cargo_binary_name("bin = \"x\"\n[package]\nname = \"pkg\"\n"),
        Some("pkg".to_string())
    );
}

#[test]
fn there_is_no_binary_name_without_a_name() {
    assert_eq!(get_cargo_binary_name("[package]\nversion = \"1\"\n"), None);
    assert_eq!(get_cargo_binary_name("[package]\nname = 3\n"), None);
    assert_eq!(get_cargo_binary_name("not = [toml"), None);
    assert_eq!(get_cargo_binary_name(""), None);
}

#[test]
fn the_version_is_scanned_from_the_text() {
    assert_eq!(read_cargo_version(MANIFEST), Some("0.3.1".to_string()));
    assert_eq!(read_cargo_version("[package]\nname = \"x\"\n"), None);
    assert_eq!(read_cargo_version("version = '1.0'\n"), None);
    assert_eq!(read_cargo_version("version = { workspace = true }\n"), None);
}
