//! The converter: what the installer's manifest says of a Cargo project,
//! read off its Cargo manifest.

use crate::document::{
    member_of, node_member, text_of, toml_keys, toml_member, toml_node, toml_parse,
    toml_parsed, toml_text, Node,
};
use crate::text::{chars_of, last_piece, opt_text, piece_last, same_chars, string_of, texts};
use vstd::prelude::*;
use vstd::slice::slice_subrange;
use vstd::string::StringExecFns;

verus! {

/// What a manifest of a Cargo project holds besides its build system,
/// which is `cargo`: the name of the package, and the names of the crates
/// it depends on.
pub struct Converted {
    pub name: Option<String>,
    pub dependencies: Option<Vec<String>>,
}

/// Why a Cargo manifest is not converted.
#[derive(Clone, Copy, Debug, PartialEq, Eq, Structural)]
pub enum ConvertError {
    /// The text is not valid TOML.
    InvalidToml,
    /// What stands under `dependencies` is no table.
    DependenciesNotTable,
}

/// Reads off a parsed Cargo manifest what the installer's manifest says of
/// the project. The name is the text under `name` in the table `package`.
/// The dependencies are the keys of the table `dependencies`, each once,
/// and are left out where there is no such member.
pub fn converted_from(doc: &toml::Value) -> (r: Result<Converted, ConvertError>)
    ensures
        match r {
            Ok(c) => {
                &&& opt_text(c.name) == text_of(
                    member_of(node_member(toml_node(*doc), "package"@), "name"@),
                )
                &&& match c.dependencies {
                    Some(d) => node_member(toml_node(*doc), "dependencies"@) matches Some(
                        Node::Table(m),
                    ) && texts(d@).no_duplicates() && texts(d@).to_set() == m.dom(),
                    None => node_member(toml_node(*doc), "dependencies"@) is None,
                }
            },
            Err(e) => {
                &&& e == ConvertError::DependenciesNotTable
                &&& node_member(toml_node(*doc), "dependencies"@) matches Some(n) && !(n is Table)
            },
        },
{
    let name = toml_text(toml_member(toml_member(Some(doc), "package"), "name"));
    match toml_member(Some(doc), "dependencies") {
        None => Ok(Converted { name, dependencies: None }),
        Some(table) => match toml_keys(table) {
            Some(keys) => Ok(Converted { name, dependencies: Some(keys) }),
            None => Err(ConvertError::DependenciesNotTable),
        },
    }
}

/// Reads off the text of a Cargo manifest what the installer's manifest
/// says of the project. A text that is not valid TOML is refused.
pub fn convert(content: &str) -> (r: Result<Converted, ConvertError>)
    ensures
        toml_parsed(content@) is None <==> r == Err::<Converted, ConvertError>(
            ConvertError::InvalidToml,
        ),
        toml_parsed(content@) matches Some(doc) ==> match r {
            Ok(c) => {
                &&& opt_text(c.name) == text_of(member_of(node_member(doc, "package"@), "name"@))
                &&& match c.dependencies {
                    Some(d) => node_member(doc, "dependencies"@) matches Some(Node::Table(m))
                        && texts(d@).no_duplicates() && texts(d@).to_set() == m.dom(),
                    None => node_member(doc, "dependencies"@) is None,
                }
            },
            Err(e) => {
                &&& e == ConvertError::DependenciesNotTable
                &&& node_member(doc, "dependencies"@) matches Some(n) && !(n is Table)
            },
        },
{
    match toml_parse(content) {
        Some(doc) => converted_from(&doc),
        None => Err(ConvertError::InvalidToml),
    }
}

/// Where the manifest for the Cargo manifest at `path` is written: next to
/// it, under the name `radon.json`. There is no such place where the file
/// at `path` is not named `Cargo.toml`.
pub open spec fn manifest_path_of(path: Seq<char>) -> Option<Seq<char>> {
    if last_piece(path, '/') == "Cargo.toml"@ {
        Some(path.subrange(0, path.len() - "Cargo.toml"@.len()) + "radon.json"@)
    } else {
        None
    }
}

/// Says where the manifest for the Cargo manifest at `path` is written.
pub fn manifest_path(path: &str) -> (r: Option<String>)
    ensures
        opt_text(r) == manifest_path_of(path@),
{
    let chars = chars_of(path);
    let name = piece_last(chars.as_slice(), '/');
    let wanted = chars_of("Cargo.toml");
    if same_chars(name, wanted.as_slice()) {
        proof {
            crate::text::lemma_last_piece_is_suffix(chars@, '/');
        }
        let mut out = string_of(slice_subrange(chars.as_slice(), 0, chars.len() - wanted.len()));
        out.append("radon.json");
        Some(out)
    } else {
        None
    }
}

} // verus!
