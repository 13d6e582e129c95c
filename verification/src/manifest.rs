//! The installer's own manifest, `radon.json`: a project that carries one
//! says itself how it is built.

use crate::document::{
    json_member, json_node, json_parse, json_parsed, json_text, json_texts, node_member,
    text_list, text_of, Node,
};
use crate::text::texts;
use vstd::prelude::*;

verus! {

/// The name of the manifest file.
pub open spec fn manifest_name() -> Seq<char> {
    "radon.json"@
}

/// What a manifest declares: the tag of its build system, the tools it
/// needs and the flags it adds to the build.
pub struct Manifest {
    pub build_system: String,
    pub dependencies: Vec<String>,
    pub flags: Vec<String>,
}

/// A manifest as plain texts.
pub struct ManifestView {
    pub build_system: Seq<char>,
    pub dependencies: Seq<Seq<char>>,
    pub flags: Seq<Seq<char>>,
}

impl View for Manifest {
    type V = ManifestView;

    open spec fn view(&self) -> ManifestView {
        ManifestView {
            build_system: self.build_system@,
            dependencies: texts(self.dependencies@),
            flags: texts(self.flags@),
        }
    }
}

/// The view of a manifest that may be missing.
pub open spec fn opt_manifest(m: Option<Manifest>) -> Option<ManifestView> {
    match m {
        Some(m) => Some(m@),
        None => None,
    }
}

/// What a manifest document declares. The build system is the text under
/// `build_system`, and `make` where there is none; the tools and the flags
/// are the texts of the lists under `dependencies` and `flags`.
pub open spec fn manifest_of(doc: Node) -> ManifestView {
    ManifestView {
        build_system: match text_of(node_member(doc, "build_system"@)) {
            Some(t) => t,
            None => "make"@,
        },
        dependencies: text_list(node_member(doc, "dependencies"@)),
        flags: text_list(node_member(doc, "flags"@)),
    }
}

/// What a manifest text declares; nothing where the text is not valid JSON.
pub open spec fn manifest_in(content: Seq<char>) -> Option<ManifestView> {
    match json_parsed(content) {
        Some(doc) => Some(manifest_of(doc)),
        None => None,
    }
}

/// Reads what a parsed manifest declares.
pub fn manifest_from(doc: &serde_json::Value) -> (r: Manifest)
    ensures
        r@ == manifest_of(json_node(*doc)),
{
    let build_system = match json_text(json_member(Some(doc), "build_system")) {
        Some(t) => t,
        None => "make".to_owned(),
    };
    Manifest {
        build_system,
        dependencies: json_texts(json_member(Some(doc), "dependencies")),
        flags: json_texts(json_member(Some(doc), "flags")),
    }
}

/// Reads what a manifest text declares. The result is `None` exactly where
/// the text is not valid JSON.
pub fn parse_radon_json(content: &str) -> (r: Option<Manifest>)
    ensures
        opt_manifest(r) == manifest_in(content@),
{
    match json_parse(content) {
        Some(doc) => Some(manifest_from(&doc)),
        None => None,
    }
}

} // verus!
