//! Text as sequences of characters.
//!
//! Every file this crate inspects is plain text. Contracts speak of a text as a
//! `Seq<char>`; executable code scans a `&[char]` and hands out sub-slices, and
//! turns them back into `String`s at the public surface.

use vstd::prelude::*;
use vstd::slice::slice_subrange;
use vstd::string::StringExecFns;

verus! {

/// `String::push` appends one character at the end of the string, as the
/// standard library documents it.
pub assume_specification[ String::push ](s: &mut String, c: char)
    ensures
        final(s)@ == old(s)@.push(c),
;

/// The views of a sequence of strings.
pub open spec fn texts(v: Seq<String>) -> Seq<Seq<char>> {
    Seq::new(v.len(), |i: int| v[i]@)
}

/// The views of a sequence of character slices.
pub open spec fn slices(v: Seq<&[char]>) -> Seq<Seq<char>> {
    Seq::new(v.len(), |i: int| v[i]@)
}

/// The view of an optional string.
pub open spec fn opt_text(o: Option<String>) -> Option<Seq<char>> {
    match o {
        Some(s) => Some(s@),
        None => None,
    }
}

/// The characters of `s`, in order.
pub fn chars_of(s: &str) -> (r: Vec<char>)
    ensures
        r@ == s@,
{
    let mut out: Vec<char> = Vec::new();
    for c in it: s.chars()
        invariant
            out@ == it.seq().take(it.index() as int),
            it.seq() == s@,
    {
        out.push(c);
    }
    out
}

/// A string made of the characters of `c`, in order.
pub fn string_of(c: &[char]) -> (r: String)
    ensures
        r@ == c@,
{
    let mut out = String::new();
    let mut i: usize = 0;
    while i < c.len()
        invariant
            i <= c@.len(),
            out@ == c@.take(i as int),
        decreases c@.len() - i,
    {
        out.push(c[i]);
        i += 1;
    }
    assert(c@.take(c@.len() as int) =~= c@);
    out
}

/// Whether two strings hold the same characters.
pub fn same_text(a: &str, b: &str) -> (r: bool)
    ensures
        r == (a@ == b@),
{
    let x = a.to_owned();
    let y = b.to_owned();
    x == y
}

/// Whether two character slices hold the same characters.
pub fn same_chars(a: &[char], b: &[char]) -> (r: bool)
    ensures
        r == (a@ == b@),
{
    if a.len() != b.len() {
        return false;
    }
    let mut i: usize = 0;
    while i < a.len()
        invariant
            i <= a@.len(),
            a@.len() == b@.len(),
            a@.take(i as int) == b@.take(i as int),
        decreases a@.len() - i,
    {
        if a[i] != b[i] {
            return false;
        }
        assert(a@.take(i + 1) =~= a@.take(i as int).push(a@[i as int]));
        assert(b@.take(i + 1) =~= b@.take(i as int).push(b@[i as int]));
        i += 1;
    }
    assert(a@.take(a@.len() as int) =~= a@);
    assert(b@.take(b@.len() as int) =~= b@);
    true
}

/// The position of the first `c` in `s` at or after `from`, or `s.len()` when
/// there is none.
pub open spec fn next_index(s: Seq<char>, c: char, from: int) -> int
    decreases s.len() - from,
{
    if from < 0 || from >= s.len() {
        s.len() as int
    } else if s[from] == c {
        from
    } else {
        next_index(s, c, from + 1)
    }
}

/// The position found lies at or after `from`, holds `c` unless it is the
/// end of the text, and nothing before it, from `from` on, holds `c`.
pub proof fn lemma_next_index_bounds(s: Seq<char>, c: char, from: int)
    requires
        0 <= from <= s.len(),
    ensures
        from <= next_index(s, c, from) <= s.len(),
        next_index(s, c, from) < s.len() ==> s[next_index(s, c, from)] == c,
        forall|j: int| from <= j < next_index(s, c, from) ==> s[j] != c,
    decreases s.len() - from,
{
    if from < s.len() && s[from] != c {
        lemma_next_index_bounds(s, c, from + 1);
    }
}

/// Scans `s` for `c`, starting at `from`.
pub fn find_char(s: &[char], c: char, from: usize) -> (r: usize)
    requires
        from <= s@.len(),
    ensures
        r == next_index(s@, c, from as int),
        from <= r <= s@.len(),
{
    let mut i: usize = from;
    while i < s.len() && s[i] != c
        invariant
            from <= i <= s@.len(),
            next_index(s@, c, from as int) == next_index(s@, c, i as int),
        decreases s@.len() - i,
    {
        i += 1;
    }
    i
}

/// The pieces of `s` between occurrences of `c`, starting at `from`. There is
/// always at least one piece; a text without `c` is its own single piece.
pub open spec fn split_from(s: Seq<char>, c: char, from: int) -> Seq<Seq<char>>
    decreases s.len() - from,
{
    if from < 0 || from > s.len() {
        seq![Seq::empty()]
    } else {
        let end = next_index(s, c, from);
        if end >= s.len() {
            seq![s.subrange(from, s.len() as int)]
        } else {
            proof {
                lemma_next_index_bounds(s, c, from);
            }
            seq![s.subrange(from, end)] + split_from(s, c, end + 1)
        }
    }
}

/// The pieces of `s` between occurrences of `c`.
pub open spec fn split(s: Seq<char>, c: char) -> Seq<Seq<char>> {
    split_from(s, c, 0)
}

/// A text always has at least one piece.
pub proof fn lemma_split_nonempty(s: Seq<char>, c: char, from: int)
    requires
        0 <= from <= s.len(),
    ensures
        split_from(s, c, from).len() >= 1,
{
    lemma_next_index_bounds(s, c, from);
}

/// Splits `s` at every `c`.
pub fn split_at_char<'a>(s: &'a [char], c: char) -> (r: Vec<&'a [char]>)
    ensures
        slices(r@) == split(s@, c),
        r@.len() >= 1,
{
    let mut out: Vec<&'a [char]> = Vec::new();
    let mut from: usize = 0;
    loop
        invariant
            from <= s@.len(),
            split(s@, c) == slices(out@) + split_from(s@, c, from as int),
        decreases s@.len() - from,
    {
        let end = find_char(s, c, from);
        let ghost before = slices(out@);
        if end >= s.len() {
            out.push(slice_subrange(s, from, s.len()));
            proof {
                assert(slices(out@) =~= before + seq![s@.subrange(from as int, s@.len() as int)]);
            }
            return out;
        }
        out.push(slice_subrange(s, from, end));
        proof {
            assert(slices(out@) =~= before + seq![s@.subrange(from as int, end as int)]);
            assert(split(s@, c) =~= slices(out@) + split_from(s@, c, end + 1));
        }
        from = end + 1;
    }
}

/// Whether `pat` stands in `s` at position `at`.
pub open spec fn matches_at(s: Seq<char>, pat: Seq<char>, at: int) -> bool {
    0 <= at && at + pat.len() <= s.len() && s.subrange(at, at + pat.len()) == pat
}

/// Whether `s` begins with `pat`.
pub open spec fn starts_with(s: Seq<char>, pat: Seq<char>) -> bool {
    matches_at(s, pat, 0)
}

/// Whether `pat` occurs somewhere in `s`.
pub open spec fn contains(s: Seq<char>, pat: Seq<char>) -> bool {
    exists|at: int| matches_at(s, pat, at)
}

/// Whether `pat` stands in `s` at position `at`.
pub fn has_at(s: &[char], pat: &[char], at: usize) -> (r: bool)
    ensures
        r == matches_at(s@, pat@, at as int),
{
    if at > s.len() || pat.len() > s.len() - at {
        return false;
    }
    same_chars(slice_subrange(s, at, at + pat.len()), pat)
}

/// Whether `s` begins with `pat`.
pub fn has_prefix(s: &[char], pat: &[char]) -> (r: bool)
    ensures
        r == starts_with(s@, pat@),
{
    has_at(s, pat, 0)
}

/// Whether `pat` occurs somewhere in `s`.
pub fn has_text(s: &[char], pat: &[char]) -> (r: bool)
    ensures
        r == contains(s@, pat@),
{
    if pat.len() > s.len() {
        return false;
    }
    let last: usize = s.len() - pat.len();
    let mut at: usize = 0;
    while at < last
        invariant
            at <= last,
            last == s@.len() - pat@.len(),
            forall|j: int| 0 <= j < at ==> !matches_at(s@, pat@, j),
        decreases last - at,
    {
        if has_at(s, pat, at) {
            return true;
        }
        at += 1;
    }
    has_at(s, pat, last)
}

/// `s` without one carriage return at its end, if it has one.
pub open spec fn strip_cr(s: Seq<char>) -> Seq<char> {
    if s.len() > 0 && s.last() == '\r' {
        s.drop_last()
    } else {
        s
    }
}

/// The lines of `s`. A line ends at a line feed; a carriage return directly
/// before that line feed belongs to the line ending. Text after the last line
/// feed is a line of its own unless it is empty.
pub open spec fn lines(s: Seq<char>) -> Seq<Seq<char>> {
    let pieces = split(s, '\n');
    let n = pieces.len() - 1;
    let ended = Seq::new(n as nat, |i: int| strip_cr(pieces[i]));
    if pieces[n].len() == 0 {
        ended
    } else {
        ended.push(pieces[n])
    }
}

/// Splits `s` into its lines.
pub fn split_lines<'a>(s: &'a [char]) -> (r: Vec<&'a [char]>)
    ensures
        slices(r@) == lines(s@),
{
    let pieces = split_at_char(s, '\n');
    let n: usize = pieces.len() - 1;
    let mut out: Vec<&'a [char]> = Vec::new();
    let mut i: usize = 0;
    while i < n
        invariant
            i <= n,
            n == pieces@.len() - 1,
            slices(pieces@) == split(s@, '\n'),
            slices(out@) == Seq::new(i as nat, |k: int| strip_cr(split(s@, '\n')[k])),
        decreases n - i,
    {
        let p: &'a [char] = pieces[i];
        assert(p@ == slices(pieces@)[i as int]);
        let ghost before = slices(out@);
        if p.len() > 0 && p[p.len() - 1] == '\r' {
            out.push(slice_subrange(p, 0, p.len() - 1));
        } else {
            out.push(p);
        }
        proof {
            assert(slices(out@) =~= before.push(strip_cr(p@)));
            assert(slices(out@) =~= Seq::new((i + 1) as nat, |k: int| strip_cr(split(s@, '\n')[k])));
        }
        i += 1;
    }
    let last: &'a [char] = pieces[n];
    assert(last@ == slices(pieces@)[n as int]);
    if last.len() > 0 {
        let ghost before = slices(out@);
        out.push(last);
        proof {
            assert(slices(out@) =~= before.push(last@));
        }
    }
    out
}

/// The first of `ls`, from position `from` on, that satisfies `p`.
pub open spec fn first_where_from(
    ls: Seq<Seq<char>>,
    p: spec_fn(Seq<char>) -> bool,
    from: int,
) -> Option<Seq<char>>
    decreases ls.len() - from,
{
    if from < 0 || from >= ls.len() {
        None
    } else if p(ls[from]) {
        Some(ls[from])
    } else {
        first_where_from(ls, p, from + 1)
    }
}

/// The first of `ls` that satisfies `p`.
pub open spec fn first_where(ls: Seq<Seq<char>>, p: spec_fn(Seq<char>) -> bool) -> Option<
    Seq<char>,
> {
    first_where_from(ls, p, 0)
}

/// The first of `ls` in which `pat` occurs.
pub fn first_containing<'a>(ls: &Vec<&'a [char]>, pat: &[char]) -> (r: Option<&'a [char]>)
    ensures
        match r {
            Some(l) => Some(l@),
            None => None,
        } == first_where(slices(ls@), |l: Seq<char>| contains(l, pat@)),
        r matches Some(l) ==> contains(l@, pat@),
{
    let ghost p = |l: Seq<char>| contains(l, pat@);
    let mut i: usize = 0;
    while i < ls.len()
        invariant
            i <= ls@.len(),
            p == (|l: Seq<char>| contains(l, pat@)),
            first_where(slices(ls@), p) == first_where_from(slices(ls@), p, i as int),
        decreases ls@.len() - i,
    {
        let l: &'a [char] = ls[i];
        assert(l@ == slices(ls@)[i as int]);
        if has_text(l, pat) {
            return Some(l);
        }
        i += 1;
    }
    None
}

/// The first of `ls` that begins with `pat`.
pub fn first_starting_with<'a>(ls: &Vec<&'a [char]>, pat: &[char]) -> (r: Option<&'a [char]>)
    ensures
        match r {
            Some(l) => Some(l@),
            None => None,
        } == first_where(slices(ls@), |l: Seq<char>| starts_with(l, pat@)),
        r matches Some(l) ==> starts_with(l@, pat@),
{
    let ghost p = |l: Seq<char>| starts_with(l, pat@);
    let mut i: usize = 0;
    while i < ls.len()
        invariant
            i <= ls@.len(),
            p == (|l: Seq<char>| starts_with(l, pat@)),
            first_where(slices(ls@), p) == first_where_from(slices(ls@), p, i as int),
        decreases ls@.len() - i,
    {
        let l: &'a [char] = ls[i];
        assert(l@ == slices(ls@)[i as int]);
        if has_prefix(l, pat) {
            return Some(l);
        }
        i += 1;
    }
    None
}

/// The piece number `n` of `s` split at every `c`, counted from zero.
pub open spec fn nth_piece(s: Seq<char>, c: char, n: int) -> Option<Seq<char>> {
    let pieces = split(s, c);
    if 0 <= n < pieces.len() {
        Some(pieces[n])
    } else {
        None
    }
}

/// The piece number `n` of `s` split at every `c`, counted from zero.
pub fn piece_at<'a>(s: &'a [char], c: char, n: usize) -> (r: Option<&'a [char]>)
    ensures
        match r {
            Some(p) => Some(p@),
            None => None,
        } == nth_piece(s@, c, n as int),
{
    let pieces = split_at_char(s, c);
    if n < pieces.len() {
        let p: &'a [char] = pieces[n];
        assert(p@ == slices(pieces@)[n as int]);
        Some(p)
    } else {
        None
    }
}

/// The last piece of `s` split at every `c`: what follows the last `c`, or
/// all of `s` where there is none.
pub open spec fn last_piece(s: Seq<char>, c: char) -> Seq<char> {
    split(s, c).last()
}

/// The last piece of `s` split at every `c`.
pub fn piece_last<'a>(s: &'a [char], c: char) -> (r: &'a [char])
    ensures
        r@ == last_piece(s@, c),
{
    let pieces = split_at_char(s, c);
    let p: &'a [char] = pieces[pieces.len() - 1];
    assert(p@ == slices(pieces@)[pieces@.len() - 1]);
    p
}

/// White space, as Unicode defines it.
pub open spec fn is_space(c: char) -> bool {
    let u = c as u32;
    ||| 0x09 <= u <= 0x0D
    ||| u == 0x20
    ||| u == 0x85
    ||| u == 0xA0
    ||| u == 0x1680
    ||| 0x2000 <= u <= 0x200A
    ||| u == 0x2028
    ||| u == 0x2029
    ||| u == 0x202F
    ||| u == 0x205F
    ||| u == 0x3000
}

/// Whether `c` is white space.
pub fn space(c: char) -> (r: bool)
    ensures
        r == is_space(c),
{
    let u: u32 = c as u32;
    (0x09 <= u && u <= 0x0D) || u == 0x20 || u == 0x85 || u == 0xA0 || u == 0x1680 || (0x2000 <= u
        && u <= 0x200A) || u == 0x2028 || u == 0x2029 || u == 0x202F || u == 0x205F || u == 0x3000
}

/// The first position at or after `from` that holds no white space, or
/// `s.len()`.
pub open spec fn skip_spaces(s: Seq<char>, from: int) -> int
    decreases s.len() - from,
{
    if 0 <= from < s.len() && is_space(s[from]) {
        skip_spaces(s, from + 1)
    } else {
        from
    }
}

/// The first position at or after `from` that holds white space, or
/// `s.len()`.
pub open spec fn skip_word(s: Seq<char>, from: int) -> int
    decreases s.len() - from,
{
    if 0 <= from < s.len() && !is_space(s[from]) {
        skip_word(s, from + 1)
    } else {
        from
    }
}

/// The end of `s` once the white space before `hi` is dropped, but no
/// further back than `lo`.
pub open spec fn drop_spaces(s: Seq<char>, lo: int, hi: int) -> int
    decreases hi,
{
    if 0 <= lo < hi <= s.len() && is_space(s[hi - 1]) {
        drop_spaces(s, lo, hi - 1)
    } else {
        hi
    }
}

/// `s` without the white space at its two ends.
pub open spec fn trim(s: Seq<char>) -> Seq<char> {
    let lo = skip_spaces(s, 0);
    s.subrange(lo, drop_spaces(s, lo, s.len() as int))
}

/// Moves past white space, starting at `from`.
pub fn past_spaces(s: &[char], from: usize) -> (r: usize)
    requires
        from <= s@.len(),
    ensures
        r == skip_spaces(s@, from as int),
        from <= r <= s@.len(),
{
    let mut i: usize = from;
    while i < s.len() && space(s[i])
        invariant
            from <= i <= s@.len(),
            skip_spaces(s@, from as int) == skip_spaces(s@, i as int),
        decreases s@.len() - i,
    {
        i += 1;
    }
    i
}

/// Moves past everything but white space, starting at `from`.
pub fn past_word(s: &[char], from: usize) -> (r: usize)
    requires
        from <= s@.len(),
    ensures
        r == skip_word(s@, from as int),
        from <= r <= s@.len(),
{
    let mut i: usize = from;
    while i < s.len() && !space(s[i])
        invariant
            from <= i <= s@.len(),
            skip_word(s@, from as int) == skip_word(s@, i as int),
        decreases s@.len() - i,
    {
        i += 1;
    }
    i
}

/// Removes the white space at the two ends of `s`.
pub fn trimmed<'a>(s: &'a [char]) -> (r: &'a [char])
    ensures
        r@ == trim(s@),
{
    let lo = past_spaces(s, 0);
    let mut hi: usize = s.len();
    while lo < hi && space(s[hi - 1])
        invariant
            lo <= hi <= s@.len(),
            drop_spaces(s@, lo as int, s@.len() as int) == drop_spaces(s@, lo as int, hi as int),
        decreases hi,
    {
        hi -= 1;
    }
    slice_subrange(s, lo, hi)
}

/// The second of the words of `s`, where words are what white space
/// separates; `None` where `s` has fewer than two words.
pub open spec fn second_word(s: Seq<char>) -> Option<Seq<char>> {
    let from = skip_spaces(s, skip_word(s, skip_spaces(s, 0)));
    if from < s.len() {
        Some(s.subrange(from, skip_word(s, from)))
    } else {
        None
    }
}

/// The second of the words of `s`.
pub fn word_two<'a>(s: &'a [char]) -> (r: Option<&'a [char]>)
    ensures
        match r {
            Some(w) => Some(w@),
            None => None,
        } == second_word(s@),
{
    let a = past_spaces(s, 0);
    let b = past_word(s, a);
    let from = past_spaces(s, b);
    if from < s.len() {
        let to = past_word(s, from);
        Some(slice_subrange(s, from, to))
    } else {
        None
    }
}

/// `s` without `pat` at its start; `None` where `s` does not begin with
/// `pat`.
pub open spec fn strip_prefix(s: Seq<char>, pat: Seq<char>) -> Option<Seq<char>> {
    if starts_with(s, pat) {
        Some(s.subrange(pat.len() as int, s.len() as int))
    } else {
        None
    }
}

/// Removes `pat` from the start of `s`.
pub fn without_prefix<'a>(s: &'a [char], pat: &[char]) -> (r: Option<&'a [char]>)
    ensures
        match r {
            Some(w) => Some(w@),
            None => None,
        } == strip_prefix(s@, pat@),
{
    if has_prefix(s, pat) {
        Some(slice_subrange(s, pat.len(), s.len()))
    } else {
        None
    }
}

/// Whether `s` ends with `pat`.
pub open spec fn ends_with(s: Seq<char>, pat: Seq<char>) -> bool {
    matches_at(s, pat, s.len() - pat.len())
}

/// Whether `s` ends with `pat`.
pub fn has_suffix(s: &[char], pat: &[char]) -> (r: bool)
    ensures
        r == ends_with(s@, pat@),
{
    if pat.len() > s.len() {
        return false;
    }
    has_at(s, pat, s.len() - pat.len())
}

/// The strings of `v` as fresh `String`s.
pub fn strings_of(v: &Vec<&[char]>) -> (r: Vec<String>)
    ensures
        texts(r@) == slices(v@),
{
    let mut out: Vec<String> = Vec::new();
    let mut i: usize = 0;
    while i < v.len()
        invariant
            i <= v@.len(),
            texts(out@) == slices(v@).take(i as int),
        decreases v@.len() - i,
    {
        let ghost before = texts(out@);
        out.push(string_of(v[i]));
        assert(texts(out@) =~= before.push(v@[i as int]@));
        assert(slices(v@).take(i + 1) =~= slices(v@).take(i as int).push(v@[i as int]@));
        i += 1;
    }
    assert(slices(v@).take(v@.len() as int) =~= slices(v@));
    out
}

/// The texts `items` from position `from` on, written one after the other
/// with `sep` between them.
pub open spec fn join_from(items: Seq<Seq<char>>, sep: Seq<char>, from: int) -> Seq<char>
    decreases items.len() - from,
{
    if from < 0 || from >= items.len() {
        Seq::empty()
    } else if from == items.len() - 1 {
        items[from]
    } else {
        items[from] + sep + join_from(items, sep, from + 1)
    }
}

/// The texts `items` written one after the other with `sep` between them.
pub open spec fn join(items: Seq<Seq<char>>, sep: Seq<char>) -> Seq<char> {
    join_from(items, sep, 0)
}

/// Writes `items` one after the other with `sep` between them.
pub fn joined(items: &Vec<String>, sep: &str) -> (r: String)
    ensures
        r@ == join(texts(items@), sep@),
{
    let mut out = String::new();
    let mut i: usize = 0;
    while i < items.len()
        invariant
            i <= items@.len(),
            join(texts(items@), sep@) == out@ + join_from(texts(items@), sep@, i as int),
        decreases items@.len() - i,
    {
        let ghost before = out@;
        out.append(items[i].as_str());
        if i + 1 < items.len() {
            out.append(sep);
            assert(out@ =~= before + (texts(items@)[i as int] + sep@));
            assert(join(texts(items@), sep@) =~= out@ + join_from(texts(items@), sep@, i + 1));
        } else {
            assert(join(texts(items@), sep@) =~= out@ + join_from(texts(items@), sep@, i + 1));
        }
        i += 1;
    }
    assert(join(texts(items@), sep@) =~= out@);
    out
}

/// The path of `name` under `dir`. An absolute `name` stands for itself;
/// otherwise a slash is put between the two unless `dir` is empty or ends
/// with one.
pub open spec fn path_join(dir: Seq<char>, name: Seq<char>) -> Seq<char> {
    if name.len() > 0 && name[0] == '/' {
        name
    } else if dir.len() == 0 || dir.last() == '/' {
        dir + name
    } else {
        dir.push('/') + name
    }
}

/// The path of `name` under `dir`.
pub fn join_path(dir: &str, name: &str) -> (r: String)
    ensures
        r@ == path_join(dir@, name@),
{
    let n = chars_of(name);
    if n.len() > 0 && n[0] == '/' {
        return name.to_owned();
    }
    let d = chars_of(dir);
    let mut out = dir.to_owned();
    if d.len() > 0 && d[d.len() - 1] != '/' {
        out.push('/');
    }
    out.append(name);
    out
}

/// Whether `name` is among `files`.
pub fn has_name(files: &Vec<String>, name: &str) -> (r: bool)
    ensures
        r == texts(files@).contains(name@),
{
    let mut i: usize = 0;
    while i < files.len()
        invariant
            i <= files@.len(),
            forall|j: int| 0 <= j < i ==> texts(files@)[j] != name@,
        decreases files@.len() - i,
    {
        if same_text(files[i].as_str(), name) {
            assert(texts(files@)[i as int] == name@);
            return true;
        }
        i += 1;
    }
    false
}

/// A copy of `v`.
pub fn copy_texts(v: &Vec<String>) -> (r: Vec<String>)
    ensures
        texts(r@) == texts(v@),
{
    let mut out: Vec<String> = Vec::new();
    let mut i: usize = 0;
    while i < v.len()
        invariant
            i <= v@.len(),
            texts(out@) == texts(v@).take(i as int),
        decreases v@.len() - i,
    {
        let ghost before = texts(out@);
        out.push(v[i].clone());
        assert(texts(out@) =~= before.push(v@[i as int]@));
        assert(texts(v@).take(i + 1) =~= texts(v@).take(i as int).push(v@[i as int]@));
        i += 1;
    }
    assert(texts(v@).take(v@.len() as int) =~= texts(v@));
    out
}

/// `a` followed by `b`.
pub fn join_texts(a: Vec<String>, b: &Vec<String>) -> (r: Vec<String>)
    ensures
        texts(r@) == texts(a@) + texts(b@),
{
    let mut out = a;
    let mut i: usize = 0;
    while i < b.len()
        invariant
            i <= b@.len(),
            texts(out@) == texts(a@) + texts(b@).take(i as int),
        decreases b@.len() - i,
    {
        let ghost before = texts(out@);
        out.push(b[i].clone());
        assert(texts(out@) =~= before.push(b@[i as int]@));
        assert(texts(b@).take(i + 1) =~= texts(b@).take(i as int).push(b@[i as int]@));
        i += 1;
    }
    assert(texts(b@).take(b@.len() as int) =~= texts(b@));
    out
}

/// The pieces of a text, from any position on, lie within the text: the
/// last of them is never longer than what is left of the text.
pub proof fn lemma_last_piece_from(s: Seq<char>, c: char, from: int)
    requires
        0 <= from <= s.len(),
    ensures
        split_from(s, c, from).last().len() <= s.len() - from,
    decreases s.len() - from,
{
    lemma_next_index_bounds(s, c, from);
    let end = next_index(s, c, from);
    if end < s.len() {
        lemma_last_piece_from(s, c, end + 1);
        lemma_split_nonempty(s, c, end + 1);
        let rest = split_from(s, c, end + 1);
        assert((seq![s.subrange(from, end)] + rest).last() == rest.last());
    }
}

/// The last piece of a text is never longer than the text.
pub proof fn lemma_last_piece_is_suffix(s: Seq<char>, c: char)
    ensures
        last_piece(s, c).len() <= s.len(),
{
    lemma_last_piece_from(s, c, 0);
}

} // verus!
