//! The registry file: a YAML list of mappings, one for each entry, from the
//! names of the entry's fields to their texts.

use crate::registry::{copy_opt, packages, InstalledPackage, PackageView};
use crate::text::{opt_text, same_text};
use vstd::prelude::*;

verus! {

/// One field of a mapping: a key and its text; a key may stand without a
/// text.
pub struct Field {
    pub key: String,
    pub value: Option<String>,
}

/// A field as plain texts.
pub struct FieldView {
    pub key: Seq<char>,
    pub value: Option<Seq<char>>,
}

impl View for Field {
    type V = FieldView;

    open spec fn view(&self) -> FieldView {
        FieldView { key: self.key@, value: opt_text(self.value) }
    }
}

/// The views of the fields of a mapping.
pub open spec fn fields(v: Seq<Field>) -> Seq<FieldView> {
    Seq::new(v.len(), |i: int| v[i]@)
}

/// The views of a list of mappings.
pub open spec fn mappings(v: Seq<Vec<Field>>) -> Seq<Seq<FieldView>> {
    Seq::new(v.len(), |i: int| fields(v[i]@))
}

/// The view of a list of mappings that may be missing.
pub open spec fn opt_mappings(o: Option<Vec<Vec<Field>>>) -> Option<Seq<Seq<FieldView>>> {
    match o {
        Some(v) => Some(mappings(v@)),
        None => None,
    }
}

/// What the YAML reader makes of a text that is read as a list of mappings
/// from texts to optional texts; `None` where the text is none.
pub uninterp spec fn yaml_mappings(text: Seq<char>) -> Option<Seq<Seq<FieldView>>>;

/// What the YAML writer makes of a list of mappings; `None` where it cannot
/// write them.
pub uninterp spec fn yaml_text(rows: Seq<Seq<FieldView>>) -> Option<Seq<char>>;

/// `serde_yaml::from_str`, reading a list of mappings whose keys are texts
/// and whose values are texts or null. The outcome depends on the text
/// alone; an error of the reader is reported as `None`.
#[verifier::external_body]
pub(crate) fn yaml_read(text: &str) -> (r: Option<Vec<Vec<Field>>>)
    ensures
        opt_mappings(r) == yaml_mappings(text@),
{
    let maps: Vec<std::collections::BTreeMap<String, Option<String>>> =
        serde_yaml::from_str(text).ok()?;
    Some(
        maps.into_iter()
            .map(|m| m.into_iter().map(|(key, value)| Field { key, value }).collect())
            .collect(),
    )
}

/// `serde_yaml::to_string`, writing a list of mappings, each with its
/// fields in the order given and null for a key without a text. The outcome
/// depends on the mappings alone; an error of the writer is reported as
/// `None`.
#[verifier::external_body]
pub(crate) fn yaml_write(rows: &Vec<Vec<Field>>) -> (r: Option<String>)
    ensures
        opt_text(r) == yaml_text(mappings(rows@)),
{
    let pair = |f: &Field| {
        (f.key.as_str().into(), f.value.clone().map_or(serde_yaml::Value::Null, Into::into))
    };
    let maps: Vec<serde_yaml::Mapping> =
        rows.iter().map(|row| row.iter().map(pair).collect()).collect();
    serde_yaml::to_string(&maps).ok()
}

/// The mapping that stands for an entry: its seven fields in their order.
pub open spec fn row_of(e: PackageView) -> Seq<FieldView> {
    seq![
        FieldView { key: "name"@, value: Some(e.name) },
        FieldView { key: "source"@, value: e.source },
        FieldView { key: "build_system"@, value: Some(e.build_system) },
        FieldView { key: "location"@, value: Some(e.location) },
        FieldView { key: "build_file"@, value: e.build_file },
        FieldView { key: "hash"@, value: e.hash },
        FieldView { key: "version"@, value: e.version },
    ]
}

/// The mappings that stand for a list of entries.
pub open spec fn rows_of(entries: Seq<PackageView>) -> Seq<Seq<FieldView>> {
    Seq::new(entries.len(), |i: int| row_of(entries[i]))
}

/// What the first field of `row`, from position `from` on, with the key
/// `key` holds; `None` where no field has the key.
pub open spec fn value_from(row: Seq<FieldView>, key: Seq<char>, from: int) -> Option<
    Option<Seq<char>>,
>
    decreases row.len() - from,
{
    if from < 0 || from >= row.len() {
        None
    } else if row[from].key == key {
        Some(row[from].value)
    } else {
        value_from(row, key, from + 1)
    }
}

/// The text that `row` must hold under `key`: `None` where the key is
/// missing or stands without a text.
pub open spec fn required(row: Seq<FieldView>, key: Seq<char>) -> Option<Seq<char>> {
    match value_from(row, key, 0) {
        Some(Some(t)) => Some(t),
        _ => None,
    }
}

/// The text that `row` may hold under `key`.
pub open spec fn optional(row: Seq<FieldView>, key: Seq<char>) -> Option<Seq<char>> {
    match value_from(row, key, 0) {
        Some(v) => v,
        None => None,
    }
}

/// The entry that a mapping stands for. Name, build system and location
/// must be there; the other fields may be missing. Keys that are no fields
/// of an entry are passed over.
pub open spec fn entry_in(row: Seq<FieldView>) -> Option<PackageView> {
    match (required(row, "name"@), required(row, "build_system"@), required(row, "location"@)) {
        (Some(name), Some(build_system), Some(location)) => Some(
            PackageView {
                name,
                source: optional(row, "source"@),
                build_system,
                location,
                build_file: optional(row, "build_file"@),
                hash: optional(row, "hash"@),
                version: optional(row, "version"@),
            },
        ),
        _ => None,
    }
}

/// The entries that the mappings from position `from` on stand for; `None`
/// where one of them stands for no entry.
pub open spec fn entries_from(rows: Seq<Seq<FieldView>>, from: int) -> Option<Seq<PackageView>>
    decreases rows.len() - from,
{
    if from < 0 || from >= rows.len() {
        Some(Seq::empty())
    } else {
        match (entry_in(rows[from]), entries_from(rows, from + 1)) {
            (Some(e), Some(rest)) => Some(seq![e] + rest),
            _ => None,
        }
    }
}

/// The entries that a list of mappings stands for.
pub open spec fn entries_in(rows: Seq<Seq<FieldView>>) -> Option<Seq<PackageView>> {
    entries_from(rows, 0)
}

/// The entries of a registry file with the text `content`. A file that
/// cannot be understood, as a whole or in one of its entries, counts as a
/// registry without entries.
pub open spec fn registry_in(content: Seq<char>) -> Seq<PackageView> {
    match yaml_mappings(content) {
        Some(rows) => match entries_in(rows) {
            Some(entries) => entries,
            None => Seq::empty(),
        },
        None => Seq::empty(),
    }
}

/// The text of a registry file with the entries `entries`; `None` where
/// the writer cannot write them.
pub open spec fn registry_text(entries: Seq<PackageView>) -> Option<Seq<char>> {
    yaml_text(rows_of(entries))
}

/// A field with a text.
fn field(key: &str, value: Option<String>) -> (r: Field)
    ensures
        r@ == (FieldView { key: key@, value: opt_text(value) }),
{
    Field { key: key.to_owned(), value }
}

/// Writes an entry as a mapping.
pub fn entry_row(e: &InstalledPackage) -> (r: Vec<Field>)
    ensures
        fields(r@) == row_of(e@),
{
    let mut out: Vec<Field> = Vec::new();
    out.push(field("name", Some(e.name.clone())));
    out.push(field("source", copy_opt(&e.source)));
    out.push(field("build_system", Some(e.build_system.clone())));
    out.push(field("location", Some(e.location.clone())));
    out.push(field("build_file", copy_opt(&e.build_file)));
    out.push(field("hash", copy_opt(&e.hash)));
    out.push(field("version", copy_opt(&e.version)));
    assert(fields(out@) =~= row_of(e@));
    out
}

/// Writes entries as mappings.
pub fn entry_rows(entries: &Vec<InstalledPackage>) -> (r: Vec<Vec<Field>>)
    ensures
        mappings(r@) == rows_of(packages(entries@)),
{
    let mut out: Vec<Vec<Field>> = Vec::new();
    let mut i: usize = 0;
    while i < entries.len()
        invariant
            i <= entries@.len(),
            mappings(out@) == Seq::new(i as nat, |k: int| row_of(packages(entries@)[k])),
        decreases entries@.len() - i,
    {
        let ghost before = mappings(out@);
        let row = entry_row(&entries[i]);
        out.push(row);
        assert(packages(entries@)[i as int] == entries@[i as int]@);
        assert(mappings(out@) =~= before.push(row_of(entries@[i as int]@)));
        assert(mappings(out@) =~= Seq::new(
            (i + 1) as nat,
            |k: int| row_of(packages(entries@)[k]),
        ));
        i += 1;
    }
    assert(mappings(out@) =~= rows_of(packages(entries@)));
    out
}

/// What `row` holds under `key`.
fn lookup(row: &Vec<Field>, key: &str) -> (r: Option<Option<String>>)
    ensures
        match r {
            Some(v) => Some(opt_text(v)),
            None => None,
        } == value_from(fields(row@), key@, 0),
{
    let mut i: usize = 0;
    while i < row.len()
        invariant
            i <= row@.len(),
            value_from(fields(row@), key@, 0) == value_from(fields(row@), key@, i as int),
        decreases row@.len() - i,
    {
        assert(fields(row@)[i as int] == row@[i as int]@);
        if same_text(row[i].key.as_str(), key) {
            return Some(copy_opt(&row[i].value));
        }
        i += 1;
    }
    None
}

/// The text that `row` must hold under `key`.
fn must(row: &Vec<Field>, key: &str) -> (r: Option<String>)
    ensures
        opt_text(r) == required(fields(row@), key@),
{
    match lookup(row, key) {
        Some(Some(t)) => Some(t),
        _ => None,
    }
}

/// The text that `row` may hold under `key`.
fn may(row: &Vec<Field>, key: &str) -> (r: Option<String>)
    ensures
        opt_text(r) == optional(fields(row@), key@),
{
    match lookup(row, key) {
        Some(v) => v,
        None => None,
    }
}

/// The view of an entry that may be missing.
pub open spec fn opt_package(o: Option<InstalledPackage>) -> Option<PackageView> {
    match o {
        Some(e) => Some(e@),
        None => None,
    }
}

/// The view of a list of entries that may be missing.
pub open spec fn opt_packages(o: Option<Vec<InstalledPackage>>) -> Option<Seq<PackageView>> {
    match o {
        Some(v) => Some(packages(v@)),
        None => None,
    }
}

/// Reads the entry that a mapping stands for.
pub fn row_entry(row: &Vec<Field>) -> (r: Option<InstalledPackage>)
    ensures
        opt_package(r) == entry_in(fields(row@)),
{
    match (must(row, "name"), must(row, "build_system"), must(row, "location")) {
        (Some(name), Some(build_system), Some(location)) => Some(
            InstalledPackage {
                name,
                source: may(row, "source"),
                build_system,
                location,
                build_file: may(row, "build_file"),
                hash: may(row, "hash"),
                version: may(row, "version"),
            },
        ),
        _ => None,
    }
}

/// Reads the entries that a list of mappings stands for.
pub fn rows_entries(rows: &Vec<Vec<Field>>) -> (r: Option<Vec<InstalledPackage>>)
    ensures
        opt_packages(r) == entries_in(mappings(rows@)),
{
    let mut out: Vec<InstalledPackage> = Vec::new();
    let mut i: usize = rows.len();
    assert(packages(out@) =~= Seq::<PackageView>::empty());
    while i > 0
        invariant
            i <= rows@.len(),
            entries_from(mappings(rows@), i as int) == Some(packages(out@)),
        decreases i,
    {
        i -= 1;
        assert(mappings(rows@)[i as int] == fields(rows@[i as int]@));
        match row_entry(&rows[i]) {
            Some(e) => {
                let ghost before = packages(out@);
                out.insert(0, e);
                assert(packages(out@) =~= seq![e@] + before);
            },
            None => {
                proof {
                    lemma_bad_row_spoils(mappings(rows@), i as int);
                }
                return None;
            },
        }
    }
    Some(out)
}

/// A mapping that stands for no entry spoils the whole list, wherever in
/// it the mapping stands.
pub proof fn lemma_bad_row_spoils(rows: Seq<Seq<FieldView>>, at: int)
    requires
        0 <= at < rows.len(),
        entry_in(rows[at]) is None,
    ensures
        entries_in(rows) is None,
{
    lemma_bad_row_spoils_from(rows, 0, at);
}

/// A mapping that stands for no entry spoils the list from any position
/// before it on.
proof fn lemma_bad_row_spoils_from(rows: Seq<Seq<FieldView>>, from: int, at: int)
    requires
        0 <= from <= at < rows.len(),
        entry_in(rows[at]) is None,
    ensures
        entries_from(rows, from) is None,
    decreases at - from,
{
    if from < at {
        lemma_bad_row_spoils_from(rows, from + 1, at);
    }
}

/// Reads the entries of a registry file with the text `content`.
pub fn get_installed_packages(content: &str) -> (r: Vec<InstalledPackage>)
    ensures
        packages(r@) == registry_in(content@),
{
    let found = match yaml_read(content) {
        Some(rows) => rows_entries(&rows),
        None => None,
    };
    match found {
        Some(entries) => entries,
        None => {
            let none: Vec<InstalledPackage> = Vec::new();
            assert(packages(none@) =~= Seq::<PackageView>::empty());
            none
        },
    }
}

/// Writes the text of a registry file with the entries `entries`.
pub fn write_installed_packages(entries: &Vec<InstalledPackage>) -> (r: Option<String>)
    ensures
        opt_text(r) == registry_text(packages(entries@)),
{
    yaml_write(&entry_rows(entries))
}

/// The keys of an entry's fields differ from one another.
proof fn lemma_field_keys()
    ensures
        "name"@.len() == 4 && "name"@[0] == 'n',
        "source"@.len() == 6,
        "build_system"@.len() == 12,
        "location"@.len() == 8,
        "build_file"@.len() == 10,
        "hash"@.len() == 4 && "hash"@[0] == 'h',
        "version"@.len() == 7,
{
    reveal_strlit("name");
    reveal_strlit("source");
    reveal_strlit("build_system");
    reveal_strlit("location");
    reveal_strlit("build_file");
    reveal_strlit("hash");
    reveal_strlit("version");
}

/// An entry is read back from its mapping as it was written.
pub proof fn lemma_entry_round_trip(e: PackageView)
    ensures
        entry_in(row_of(e)) == Some(e),
{
    lemma_field_keys();
    reveal_with_fuel(value_from, 8);
}

/// Entries are read back from their mappings as they were written: the
/// same entries, as many, in the same order.
pub proof fn lemma_entries_round_trip(entries: Seq<PackageView>)
    ensures
        entries_in(rows_of(entries)) == Some(entries),
{
    lemma_entries_round_trip_from(entries, 0);
}

/// From any position on, entries are read back from their mappings as
/// they were written.
proof fn lemma_entries_round_trip_from(entries: Seq<PackageView>, from: int)
    requires
        0 <= from <= entries.len(),
    ensures
        entries_from(rows_of(entries), from) == Some(entries.subrange(from, entries.len() as int)),
    decreases entries.len() - from,
{
    if from < entries.len() {
        lemma_entry_round_trip(entries[from]);
        lemma_entries_round_trip_from(entries, from + 1);
        assert(seq![entries[from]] + entries.subrange(from + 1, entries.len() as int)
            =~= entries.subrange(from, entries.len() as int));
    } else {
        assert(entries.subrange(from, entries.len() as int) =~= Seq::<PackageView>::empty());
    }
}

} // verus!
