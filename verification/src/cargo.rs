//! What a Cargo manifest says: the tools the project asks for, the name of
//! the program it builds, and its version.

use crate::document::{
    member_of, node_member, text_list, text_of, toml_array, toml_member, toml_node, toml_parse,
    toml_parsed, toml_text, toml_texts, Node,
};
use crate::scan::{quoted_field, read_quoted_field};
use crate::text::{opt_text, texts};
use vstd::prelude::*;

verus! {

/// The tools that a manifest document asks for: the texts of the list
/// `dependencies` in the table `radon` of the package's metadata.
pub open spec fn cargo_deps_of(doc: Node) -> Seq<Seq<char>> {
    text_list(
        member_of(
            member_of(member_of(node_member(doc, "package"@), "metadata"@), "radon"@),
            "dependencies"@,
        ),
    )
}

/// The tools that a manifest text asks for; none where the text is no valid
/// manifest.
pub open spec fn cargo_deps(content: Seq<char>) -> Seq<Seq<char>> {
    match toml_parsed(content) {
        Some(doc) => cargo_deps_of(doc),
        None => Seq::empty(),
    }
}

/// Reads the tools that a parsed manifest asks for.
pub fn cargo_deps_in(doc: &toml::Value) -> (r: Vec<String>)
    ensures
        texts(r@) == cargo_deps_of(toml_node(*doc)),
{
    let package = toml_member(Some(doc), "package");
    let metadata = toml_member(package, "metadata");
    let table = toml_member(metadata, "radon");
    toml_texts(toml_member(table, "dependencies"))
}

/// Reads the tools that a manifest text asks for.
pub fn parse_cargo_deps(content: &str) -> (r: Vec<String>)
    ensures
        texts(r@) == cargo_deps(content@),
{
    match toml_parse(content) {
        Some(doc) => cargo_deps_in(&doc),
        None => {
            let out: Vec<String> = Vec::new();
            assert(texts(out@) =~= Seq::<Seq<char>>::empty());
            out
        },
    }
}

/// The name of the first of `items`, from position `from` on, that is a
/// table with a text under `name`.
pub open spec fn first_named_from(items: Seq<Node>, from: int) -> Option<Seq<char>>
    decreases items.len() - from,
{
    if from < 0 || from >= items.len() {
        None
    } else {
        match text_of(node_member(items[from], "name"@)) {
            Some(t) => Some(t),
            None => first_named_from(items, from + 1),
        }
    }
}

/// The name of the program that a manifest document builds: that of its
/// first binary target that has a name, else the name of the package.
pub open spec fn binary_name_of(doc: Node) -> Option<Seq<char>> {
    let declared = match node_member(doc, "bin"@) {
        Some(Node::List(items)) => first_named_from(items, 0),
        _ => None,
    };
    match declared {
        Some(t) => Some(t),
        None => text_of(member_of(node_member(doc, "package"@), "name"@)),
    }
}

/// The name of the program that a manifest text builds; none where the text
/// is no valid manifest.
pub open spec fn cargo_binary_name(content: Seq<char>) -> Option<Seq<char>> {
    match toml_parsed(content) {
        Some(doc) => binary_name_of(doc),
        None => None,
    }
}

/// Reads the name of the program that a parsed manifest builds.
pub fn binary_name_in(doc: &toml::Value) -> (r: Option<String>)
    ensures
        opt_text(r) == binary_name_of(toml_node(*doc)),
{
    let bins = match toml_member(Some(doc), "bin") {
        Some(b) => toml_array(b),
        None => None,
    };
    if let Some(items) = bins {
        let ghost nodes = Seq::new(items@.len(), |i: int| toml_node(items@[i]));
        let mut i: usize = 0;
        while i < items.len()
            invariant
                i <= items@.len(),
                nodes == Seq::new(items@.len(), |k: int| toml_node(items@[k])),
                node_member(toml_node(*doc), "bin"@) == Some(Node::List(nodes)),
                first_named_from(nodes, 0) == first_named_from(nodes, i as int),
            decreases items@.len() - i,
        {
            assert(nodes[i as int] == toml_node(items@[i as int]));
            let name = toml_text(toml_member(Some(&items[i]), "name"));
            if name.is_some() {
                return name;
            }
            i += 1;
        }
    }
    toml_text(toml_member(toml_member(Some(doc), "package"), "name"))
}

/// Reads the name of the program that a manifest text builds.
pub fn get_cargo_binary_name(content: &str) -> (r: Option<String>)
    ensures
        opt_text(r) == cargo_binary_name(content@),
{
    match toml_parse(content) {
        Some(doc) => binary_name_in(&doc),
        None => None,
    }
}

/// The version that a manifest text states, found by scanning its lines for
/// the first that begins with `version = `.
pub open spec fn cargo_version(content: Seq<char>) -> Option<Seq<char>> {
    quoted_field(content, "version"@)
}

/// Reads the version that a manifest text states.
pub fn read_cargo_version(content: &str) -> (r: Option<String>)
    ensures
        opt_text(r) == cargo_version(content@),
{
    read_quoted_field(content, "version")
}

} // verus!
