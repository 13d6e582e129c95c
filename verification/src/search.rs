//! The search for repositories: the address that is asked, and what is
//! shown of the answer.

use crate::document::{
    json_array, json_member, json_node, json_parse, json_parsed, json_text, json_u64, member_of,
    node_member, text_of, Node,
};
use crate::text::opt_text;
use vstd::prelude::*;
use vstd::string::StringExecFns;
use vstd::utf8::encode_utf8;

verus! {

/// Whether a byte is written into an address as it is: letters, digits,
/// hyphen, underscore, full stop and tilde.
pub open spec fn is_unreserved(b: u8) -> bool {
    ||| 0x30 <= b <= 0x39
    ||| 0x41 <= b <= 0x5A
    ||| 0x61 <= b <= 0x7A
    ||| b == 0x2D
    ||| b == 0x2E
    ||| b == 0x5F
    ||| b == 0x7E
}

/// The hexadecimal digit for a value below sixteen, in upper case.
pub open spec fn upper_hex(n: int) -> char {
    if 0 <= n <= 9 {
        (0x30 + n) as u8 as char
    } else {
        (0x41 + n - 10) as u8 as char
    }
}

/// A byte as it is written into an address: itself, or a percent sign and
/// its two hexadecimal digits.
pub open spec fn escaped_byte(b: u8) -> Seq<char> {
    if is_unreserved(b) {
        seq![b as char]
    } else {
        seq!['%', upper_hex(b as int / 16), upper_hex(b as int % 16)]
    }
}

/// The bytes from position `from` on as they are written into an address.
pub open spec fn escaped_from(bytes: Seq<u8>, from: int) -> Seq<char>
    decreases bytes.len() - from,
{
    if from < 0 || from >= bytes.len() {
        Seq::empty()
    } else {
        escaped_byte(bytes[from]) + escaped_from(bytes, from + 1)
    }
}

/// A text as it is written into an address: each byte of its UTF-8 form
/// escaped.
pub open spec fn percent_encoded(text: Seq<char>) -> Seq<char> {
    escaped_from(encode_utf8(text), 0)
}

/// `urlencoding::encode`: the text with every byte of its UTF-8 form
/// percent-encoded in upper-case hexadecimal, except letters, digits, `-`,
/// `_`, `.` and `~`.
#[verifier::external_body]
pub(crate) fn percent_encode(text: &str) -> (r: String)
    ensures
        r@ == percent_encoded(text@),
{
    urlencoding::encode(text).into_owned()
}

/// The address that answers a search for `query`.
pub open spec fn search_url_of(query: Seq<char>) -> Seq<char> {
    "https://api.github.com/search/repositories?q="@ + percent_encoded(query)
}

/// The address that answers a search for `query`.
pub fn search_url(query: &str) -> (r: String)
    ensures
        r@ == search_url_of(query@),
{
    let mut url = "https://api.github.com/search/repositories?q=".to_owned();
    url.append(percent_encode(query).as_str());
    url
}

/// One repository of an answer: its full name, and how often it was
/// starred and forked.
pub struct SearchRow {
    pub name: String,
    pub stars: u64,
    pub forks: u64,
}

/// A row as plain values.
pub struct RowView {
    pub name: Seq<char>,
    pub stars: u64,
    pub forks: u64,
}

impl View for SearchRow {
    type V = RowView;

    open spec fn view(&self) -> RowView {
        RowView { name: self.name@, stars: self.stars, forks: self.forks }
    }
}

/// The views of a sequence of rows.
pub open spec fn rows(v: Seq<SearchRow>) -> Seq<RowView> {
    Seq::new(v.len(), |i: int| v[i]@)
}

/// The number under a value that may be missing, and zero where there is
/// none.
pub open spec fn count_of(n: Option<Node>) -> u64 {
    match n {
        Some(Node::Count(c)) => c,
        _ => 0,
    }
}

/// The row that an item of an answer gives; none for an item without a
/// full name.
pub open spec fn row_of(item: Node) -> Option<RowView> {
    match text_of(node_member(item, "full_name"@)) {
        Some(name) => Some(
            RowView {
                name,
                stars: count_of(node_member(item, "stargazers_count"@)),
                forks: count_of(node_member(item, "forks_count"@)),
            },
        ),
        None => None,
    }
}

/// The rows of the items from position `from` up to `end`.
pub open spec fn rows_from(items: Seq<Node>, from: int, end: int) -> Seq<RowView>
    decreases end - from,
{
    if from < 0 || from >= end || from >= items.len() {
        Seq::empty()
    } else {
        match row_of(items[from]) {
            Some(r) => seq![r] + rows_from(items, from + 1, end),
            None => rows_from(items, from + 1, end),
        }
    }
}

/// What is shown of an answer.
pub enum SearchResult {
    /// These repositories.
    Rows(Vec<SearchRow>),
    /// The answer lists no repositories; it may say why.
    Unexpected(Option<String>),
    /// The answer is not valid JSON.
    Invalid,
}

/// A search result as plain values.
pub enum ResultView {
    Rows(Seq<RowView>),
    Unexpected(Option<Seq<char>>),
    Invalid,
}

impl View for SearchResult {
    type V = ResultView;

    open spec fn view(&self) -> ResultView {
        match self {
            SearchResult::Rows(r) => ResultView::Rows(rows(r@)),
            SearchResult::Unexpected(m) => ResultView::Unexpected(opt_text(*m)),
            SearchResult::Invalid => ResultView::Invalid,
        }
    }
}

/// The most repositories that are shown.
pub open spec fn shown_at_most() -> int {
    10
}

/// What is shown of an answer document: the rows of the first ten items
/// under `items`; or, where that is no list, the text under `message`.
pub open spec fn search_result_of(doc: Node) -> ResultView {
    match node_member(doc, "items"@) {
        Some(Node::List(items)) => ResultView::Rows(rows_from(items, 0, shown_at_most())),
        _ => ResultView::Unexpected(text_of(node_member(doc, "message"@))),
    }
}

/// What is shown of an answer text.
pub open spec fn search_result_in(body: Seq<char>) -> ResultView {
    match json_parsed(body) {
        Some(doc) => search_result_of(doc),
        None => ResultView::Invalid,
    }
}

/// The number under a value that may be missing.
fn count(v: Option<&serde_json::Value>) -> (r: u64)
    ensures
        r == count_of(crate::document::json_opt(v)),
{
    match v {
        Some(v) => match json_u64(v) {
            Some(n) => n,
            None => 0,
        },
        None => 0,
    }
}

/// Reads what is shown of a parsed answer.
pub fn search_result_from(doc: &serde_json::Value) -> (r: SearchResult)
    ensures
        r@ == search_result_of(json_node(*doc)),
{
    let found = match json_member(Some(doc), "items") {
        Some(v) => json_array(v),
        None => None,
    };
    match found {
        None => SearchResult::Unexpected(json_text(json_member(Some(doc), "message"))),
        Some(items) => {
            let ghost nodes = Seq::new(items@.len(), |i: int| json_node(items@[i]));
            let mut out: Vec<SearchRow> = Vec::new();
            let mut i: usize = 0;
            while i < items.len() && i < 10
                invariant
                    i <= items@.len(),
                    i <= 10,
                    nodes == Seq::new(items@.len(), |k: int| json_node(items@[k])),
                    rows_from(nodes, 0, shown_at_most()) == rows(out@) + rows_from(
                        nodes,
                        i as int,
                        shown_at_most(),
                    ),
                decreases items@.len() - i,
            {
                assert(nodes[i as int] == json_node(items@[i as int]));
                let item = &items[i];
                match json_text(json_member(Some(item), "full_name")) {
                    Some(name) => {
                        let row = SearchRow {
                            name,
                            stars: count(json_member(Some(item), "stargazers_count")),
                            forks: count(json_member(Some(item), "forks_count")),
                        };
                        let ghost before = rows(out@);
                        out.push(row);
                        assert(rows(out@) =~= before + seq![row@]);
                        assert(rows_from(nodes, 0, shown_at_most()) =~= rows(out@) + rows_from(
                            nodes,
                            i + 1,
                            shown_at_most(),
                        ));
                    },
                    None => {},
                }
                i += 1;
            }
            assert(rows(out@) =~= rows_from(nodes, 0, shown_at_most()));
            SearchResult::Rows(out)
        },
    }
}

/// Reads what is shown of an answer text.
pub fn search(body: &str) -> (r: SearchResult)
    ensures
        r@ == search_result_in(body@),
{
    match json_parse(body) {
        Some(doc) => search_result_from(&doc),
        None => SearchResult::Invalid,
    }
}

} // verus!
