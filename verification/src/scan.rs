//! What a project's own build files say about the tools they need.

use crate::text::{
    chars_of, contains, first_containing, first_starting_with, first_where, has_text,
    lemma_next_index_bounds, lemma_split_nonempty, lines, matches_at, next_index, nth_piece,
    opt_text, piece_at, slices, split, split_at_char, split_lines, starts_with, string_of, texts,
    trim, trimmed,
};
use vstd::prelude::*;
use vstd::string::StringExecFns;

verus! {

/// The comment that introduces the list of tools in a Make-family file.
pub open spec fn make_marker() -> Seq<char> {
    "# DEPENDENCIES:"@
}

/// The tools that the line `l` declares: what stands between its first and
/// its second colon, split at commas, each item without the white space
/// around it.
pub open spec fn declared_on_line(l: Seq<char>) -> Seq<Seq<char>> {
    let items = split(split(l, ':')[1], ',');
    Seq::new(items.len(), |i: int| trim(items[i]))
}

/// The tools that a Make-family file declares: those on its first line that
/// holds the marker comment, and none where no line holds it.
pub open spec fn make_deps(content: Seq<char>) -> Seq<Seq<char>> {
    match first_where(lines(content), |l: Seq<char>| contains(l, make_marker())) {
        Some(l) => declared_on_line(l),
        None => Seq::empty(),
    }
}

/// A line that holds the marker comment holds a colon, so it has a piece
/// after its first colon.
pub proof fn lemma_marker_line_has_field(l: Seq<char>)
    requires
        contains(l, make_marker()),
    ensures
        split(l, ':').len() >= 2,
{
    reveal_strlit("# DEPENDENCIES:");
    let at = choose|at: int| matches_at(l, make_marker(), at);
    assert(l.subrange(at, at + 15)[14] == ':');
    lemma_next_index_bounds(l, ':', 0);
    let end = next_index(l, ':', 0);
    assert(end < l.len());
    lemma_split_nonempty(l, ':', end + 1);
}

/// Reads the tools that a Make-family file declares.
pub fn parse_make_deps(content: &str) -> (r: Vec<String>)
    ensures
        texts(r@) == make_deps(content@),
{
    let chars = chars_of(content);
    let ls = split_lines(chars.as_slice());
    let mark = chars_of("# DEPENDENCIES:");
    let mut out: Vec<String> = Vec::new();
    match first_containing(&ls, mark.as_slice()) {
        None => {
            assert(texts(out@) =~= Seq::<Seq<char>>::empty());
        },
        Some(l) => {
            proof {
                lemma_marker_line_has_field(l@);
            }
            let fields = split_at_char(l, ':');
            let field: &[char] = fields[1];
            assert(field@ == slices(fields@)[1]);
            let items = split_at_char(field, ',');
            let mut i: usize = 0;
            while i < items.len()
                invariant
                    i <= items@.len(),
                    slices(items@) == split(field@, ','),
                    texts(out@) == Seq::new(i as nat, |k: int| trim(split(field@, ',')[k])),
                decreases items@.len() - i,
            {
                let item: &[char] = items[i];
                assert(item@ == slices(items@)[i as int]);
                let ghost before = texts(out@);
                out.push(string_of(trimmed(item)));
                assert(texts(out@) =~= before.push(trim(item@)));
                assert(texts(out@) =~= Seq::new(
                    (i + 1) as nat,
                    |k: int| trim(split(field@, ',')[k]),
                ));
                i += 1;
            }
            assert(texts(out@) =~= declared_on_line(l@));
        },
    }
    out
}

/// The tools that a `configure` script asks for, judged by the macros whose
/// names occur in it: `pkg-config` for a module check, `gcc` for a C
/// compiler, `g++` for a C++ compiler, in this order.
pub open spec fn autotools_deps(content: Seq<char>) -> Seq<Seq<char>> {
    let a: Seq<Seq<char>> = if contains(content, "PKG_CHECK_MODULES"@) {
        seq!["pkg-config"@]
    } else {
        seq![]
    };
    let b: Seq<Seq<char>> = if contains(content, "AC_PROG_CC"@) {
        seq!["gcc"@]
    } else {
        seq![]
    };
    let c: Seq<Seq<char>> = if contains(content, "AC_PROG_CXX"@) {
        seq!["g++"@]
    } else {
        seq![]
    };
    a + b + c
}

/// Infers the tools that a `configure` script asks for.
pub fn parse_autotools_deps(content: &str) -> (r: Vec<String>)
    ensures
        texts(r@) == autotools_deps(content@),
{
    let chars = chars_of(content);
    let mut out: Vec<String> = Vec::new();
    if has_text(chars.as_slice(), chars_of("PKG_CHECK_MODULES").as_slice()) {
        out.push("pkg-config".to_owned());
    }
    if has_text(chars.as_slice(), chars_of("AC_PROG_CC").as_slice()) {
        out.push("gcc".to_owned());
    }
    if has_text(chars.as_slice(), chars_of("AC_PROG_CXX").as_slice()) {
        out.push("g++".to_owned());
    }
    assert(texts(out@) =~= autotools_deps(content@));
    out
}

/// The value that a text of `key = "value"` lines gives for `key`: on the
/// first line that begins with the key, a blank, an equals sign and a blank,
/// what stands between the first and the second double quote. There is none
/// where no line begins so, or where that line holds no double quote.
pub open spec fn quoted_field(content: Seq<char>, key: Seq<char>) -> Option<Seq<char>> {
    match first_where(lines(content), |l: Seq<char>| starts_with(l, key + " = "@)) {
        Some(l) => nth_piece(l, '"', 1),
        None => None,
    }
}

/// Reads the value that `content` gives for `key`.
pub fn read_quoted_field(content: &str, key: &str) -> (r: Option<String>)
    ensures
        opt_text(r) == quoted_field(content@, key@),
{
    let chars = chars_of(content);
    let ls = split_lines(chars.as_slice());
    let mut prefix = key.to_owned();
    prefix.append(" = ");
    let pat = chars_of(prefix.as_str());
    match first_starting_with(&ls, pat.as_slice()) {
        Some(l) => match piece_at(l, '"', 1) {
            Some(p) => Some(string_of(p)),
            None => None,
        },
        None => None,
    }
}

} // verus!
