use vstd::prelude::*;
use vstd::utf8::encode_utf8;
use crate::cell::Cell;
use crate::grid::{Grid, Row};
use crate::text::{spec_is_whitespace, is_whitespace, push_char, case_lower, to_lowercase};
use crate::encode::push_utf8;

verus! {

/// One match: a row counted over history then screen, a byte column in that row's text,
/// and a length in bytes.
#[derive(Debug, Clone, Copy, PartialEq, Eq, Structural)]
pub struct SearchMatch {
    pub row: usize,
    pub col: usize,
    pub len: usize,
}

/// The characters of a row's cells, left to right.
pub open spec fn row_chars(row: Seq<Cell>) -> Seq<char> {
    row.map_values(|c: Cell| c.character)
}

/// `s` without its trailing whitespace.
pub open spec fn trim_end(s: Seq<char>) -> Seq<char>
    decreases s.len(),
{
    if s.len() > 0 && spec_is_whitespace(s.last()) {
        trim_end(s.drop_last())
    } else {
        s
    }
}

/// A row as text: its characters without trailing whitespace.
pub open spec fn row_string(row: Seq<Cell>) -> Seq<char> {
    trim_end(row_chars(row))
}

/// Whether `q` occurs in `t` at byte `p`.
pub open spec fn occurs_at(t: Seq<u8>, q: Seq<u8>, p: int) -> bool {
    0 <= p && p + q.len() <= t.len() && t.subrange(p, p + q.len()) == q
}

/// Every position from `p` on at which `q` occurs in `t`, in increasing order; overlapping
/// occurrences all count.
pub open spec fn occurrences_from(t: Seq<u8>, q: Seq<u8>, p: int) -> Seq<int>
    decreases t.len() + 1 - p,
{
    if p < 0 || p + q.len() > t.len() {
        Seq::empty()
    } else if occurs_at(t, q, p) {
        seq![p] + occurrences_from(t, q, p + 1)
    } else {
        occurrences_from(t, q, p + 1)
    }
}

/// The matches of length `len` at the given columns of row `row`.
pub open spec fn matches_at(row: int, cols: Seq<int>, len: int) -> Seq<SearchMatch> {
    cols.map_values(|c: int| SearchMatch { row: row as usize, col: c as usize, len: len as usize })
}

/// The text searched in a row: as it stands, or lowercased when case is ignored.
pub open spec fn searched_text(row: Seq<Cell>, case_sensitive: bool) -> Seq<char> {
    if case_sensitive {
        row_string(row)
    } else {
        case_lower(row_string(row))
    }
}

/// Literal matches of the bytes `q` over `rows`, row by row, each reported `len` bytes long.
pub open spec fn literal_matches(rows: Seq<Seq<Cell>>, q: Seq<u8>, case_sensitive: bool, len: int) -> Seq<SearchMatch>
    decreases rows.len(),
{
    if rows.len() == 0 {
        Seq::empty()
    } else {
        let last = rows.len() - 1;
        literal_matches(rows.drop_last(), q, case_sensitive, len)
            + matches_at(last, occurrences_from(encode_utf8(searched_text(rows[last], case_sensitive)), q, 0), len)
    }
}

/// What `regex::Regex::new` reports for `pattern`: `None` when it compiles, else the text of
/// its error.
pub uninterp spec fn regex_error(pattern: Seq<char>) -> Option<Seq<char>>;

/// The byte spans `(start, end)` of the successive non-overlapping matches that
/// `regex::Regex::find_iter` yields for `pattern` in `text`.
pub uninterp spec fn regex_spans(pattern: Seq<char>, text: Seq<char>) -> Seq<(usize, usize)>;

/// The matches of row `row` at the given byte spans.
pub open spec fn span_matches(row: int, spans: Seq<(usize, usize)>) -> Seq<SearchMatch> {
    spans.map_values(|s: (usize, usize)| SearchMatch { row: row as usize, col: s.0, len: (s.1 - s.0) as usize })
}

/// Regular-expression matches of `pattern` over `rows`, row by row.
pub open spec fn regex_matches(rows: Seq<Seq<Cell>>, pattern: Seq<char>) -> Seq<SearchMatch>
    decreases rows.len(),
{
    if rows.len() == 0 {
        Seq::empty()
    } else {
        let last = rows.len() - 1;
        regex_matches(rows.drop_last(), pattern) + span_matches(last, regex_spans(pattern, row_string(rows[last])))
    }
}

/// The pattern compiled for a query: the query itself, or with the case-insensitive flag.
pub open spec fn regex_pattern(query: Seq<char>, case_sensitive: bool) -> Seq<char> {
    if case_sensitive {
        query
    } else {
        "(?i)"@ + query
    }
}

/// The outcome of searching `rows` for `query`: every match in order, or the error text.
pub open spec fn search_outcome(rows: Seq<Seq<Cell>>, query: Seq<char>, case_sensitive: bool, use_regex: bool)
    -> Result<Seq<SearchMatch>, Seq<char>>
{
    if query.len() == 0 {
        Ok(Seq::empty())
    } else if use_regex {
        let p = regex_pattern(query, case_sensitive);
        match regex_error(p) {
            Some(e) => Err("Invalid regex: "@ + e),
            None => Ok(regex_matches(rows, p)),
        }
    } else {
        Ok(literal_matches(rows, literal_query(query, case_sensitive), case_sensitive, encode_utf8(query).len() as int))
    }
}

/// The bytes a literal search looks for: the query's UTF-8, lowercased when case is ignored.
pub open spec fn literal_query(query: Seq<char>, case_sensitive: bool) -> Seq<u8> {
    encode_utf8(if case_sensitive { query } else { case_lower(query) })
}

/// Whether a literal search would resume inside a character: after each match it resumes
/// one byte further on, which falls inside the match's first character when that character
/// takes more than one byte, so this holds when the query starts with such a character and
/// matches somewhere.
pub open spec fn search_resumes_mid_char(rows: Seq<Seq<Cell>>, query: Seq<char>, case_sensitive: bool, use_regex: bool) -> bool {
    &&& query.len() > 0
    &&& !use_regex
    &&& literal_query(query, case_sensitive)[0] >= 0x80
    &&& literal_matches(rows, literal_query(query, case_sensitive), case_sensitive, encode_utf8(query).len() as int).len() > 0
}

/// What a search of `rows` leaves: `after` keeps the query and its reading from `before`, and
/// holds every match of `search_outcome` with the first selected, or, for an error, none.
pub open spec fn search_result(before: SearchState, after: SearchState, rows: Seq<Seq<Cell>>, r: Result<(), String>) -> bool {
    &&& after.query == before.query
    &&& after.case_sensitive == before.case_sensitive
    &&& after.use_regex == before.use_regex
    &&& match search_outcome(rows, before.query@, before.case_sensitive, before.use_regex) {
        Ok(ms) => {
            &&& r is Ok
            &&& after.matches@ == ms
            &&& after.current_match == (if ms.len() > 0 { Some(0usize) } else { None })
        },
        Err(e) => {
            &&& r matches Err(m) && m@ == e
            &&& after.matches@.len() == 0
            &&& after.current_match is None
        },
    }
}

/// The selected match after moving forward in a list of `n`: the next one, wrapping to the first.
pub open spec fn next_index(cur: Option<usize>, n: nat) -> Option<usize> {
    if n == 0 {
        cur
    } else {
        match cur {
            Some(i) => Some(((i + 1) % (n as int)) as usize),
            None => Some(0),
        }
    }
}

/// The selected match after moving back in a list of `n`: the previous one, wrapping to the last.
pub open spec fn previous_index(cur: Option<usize>, n: nat) -> Option<usize> {
    if n == 0 {
        cur
    } else {
        match cur {
            Some(i) => Some(if i == 0 { (n - 1) as usize } else { (i - 1) as usize }),
            None => Some(0),
        }
    }
}

/// A regular expression together with the pattern it was compiled from.
struct CompiledRegex {
    regex: regex::Regex,
    pattern: String,
}

impl CompiledRegex {
    spec fn source(&self) -> Seq<char> {
        self.pattern@
    }
}

/// Makes `regex::Regex` known to the verifier as an opaque type.
#[verifier::external_type_specification]
#[verifier::external_body]
pub struct ExRegex(regex::Regex);

/// Calls `regex::Regex::new` on `pattern`: `Ok` exactly when it compiles, else the text of
/// its error.
#[verifier::external_body]
fn compile_regex(pattern: &str) -> (r: Result<CompiledRegex, String>)
    ensures
        r is Ok <==> regex_error(pattern@) is None,
        r matches Ok(c) ==> c.source() == pattern@,
        r matches Err(e) ==> regex_error(pattern@) == Some(e@),
{
    match regex::Regex::new(pattern) {
        Ok(regex) => Ok(CompiledRegex { regex, pattern: pattern.to_string() }),
        Err(e) => Err(e.to_string()),
    }
}

/// Calls `regex::Regex::find_iter` on `text` and returns each match's byte span; a match
/// starts no later than it ends, and ends within the text.
#[verifier::external_body]
fn find_spans(re: &CompiledRegex, text: &str) -> (r: Vec<(usize, usize)>)
    ensures
        r@ == regex_spans(re.source(), text@),
        forall|i: int| 0 <= i < r@.len() ==> (#[trigger] r@[i]).0 <= r@[i].1 <= encode_utf8(text@).len(),
{
    re.regex.find_iter(text).map(|m| (m.start(), m.end())).collect()
}

/// A row as text, trailing whitespace removed.
pub fn row_to_string(row: &[Cell]) -> (s: String)
    ensures
        s@ == row_string(row@),
{
    let ghost chars = row_chars(row@);
    let mut end: usize = row.len();
    assert(chars.take(end as int) =~= chars);
    while end > 0 && is_whitespace(row[end - 1].character)
        invariant
            end <= row@.len(),
            chars == row_chars(row@),
            trim_end(chars.take(end as int)) == trim_end(chars),
        decreases end,
    {
        assert(chars.take(end as int).drop_last() =~= chars.take(end - 1));
        end = end - 1;
    }
    let mut s = String::new();
    let mut i: usize = 0;
    while i < end
        invariant
            i <= end <= row@.len(),
            chars == row_chars(row@),
            s@ == chars.take(i as int),
        decreases end - i,
    {
        push_char(&mut s, row[i].character);
        i = i + 1;
        assert(s@ =~= chars.take(i as int));
    }
    assert(trim_end(chars.take(end as int)) == chars.take(end as int));
    s
}

/// Whether `q` occurs in `t` at byte `p`.
fn occurs_at_exec(t: &[u8], q: &[u8], p: usize) -> (b: bool)
    requires
        p + q@.len() <= t@.len(),
    ensures
        b == occurs_at(t@, q@, p as int),
{
    let tl = t.len();
    let mut k: usize = 0;
    while k < q.len()
        invariant
            k <= q@.len(),
            tl == t@.len(),
            p + q@.len() <= t@.len(),
            forall|j: int| 0 <= j < k ==> t@[p + j] == q@[j],
        decreases q@.len() - k,
    {
        if t[p + k] != q[k] {
            assert(t@.subrange(p as int, p + q@.len())[k as int] != q@[k as int]);
            return false;
        }
        k = k + 1;
    }
    assert(t@.subrange(p as int, p + q@.len()) =~= q@);
    true
}

/// Appends the matches of `q` in `t`, as matches of row `row` that are `len` bytes long.
pub fn push_occurrences(matches: &mut Vec<SearchMatch>, t: &[u8], q: &[u8], row: usize, len: usize)
    requires
        q@.len() > 0,
    ensures
        final(matches)@ == old(matches)@ + matches_at(row as int, occurrences_from(t@, q@, 0), len as int),
{
    if q.len() > t.len() {
        assert(occurrences_from(t@, q@, 0) =~= Seq::<int>::empty());
        assert(matches@ =~= old(matches)@ + matches_at(row as int, occurrences_from(t@, q@, 0), len as int));
        return;
    }
    let last = t.len() - q.len();
    let mut p: usize = 0;
    let tl = t.len();
    while p <= last
        invariant
            tl == t@.len(),
            q@.len() > 0,
            last == t@.len() - q@.len(),
            p <= last + 1,
            matches@ + matches_at(row as int, occurrences_from(t@, q@, p as int), len as int)
                == old(matches)@ + matches_at(row as int, occurrences_from(t@, q@, 0), len as int),
        decreases last + 1 - p,
    {
        let ghost rest = occurrences_from(t@, q@, p as int + 1);
        if occurs_at_exec(t, q, p) {
            let ghost before = matches@;
            matches.push(SearchMatch { row, col: p, len });
            assert(matches_at(row as int, seq![p as int] + rest, len as int)
                =~= seq![SearchMatch { row, col: p, len }] + matches_at(row as int, rest, len as int));
            assert(matches@ + matches_at(row as int, rest, len as int)
                =~= before + matches_at(row as int, seq![p as int] + rest, len as int));
        }
        p = p + 1;
    }
    assert(occurrences_from(t@, q@, p as int) =~= Seq::<int>::empty());
    assert(matches_at(row as int, Seq::<int>::empty(), len as int) =~= Seq::<SearchMatch>::empty());
    assert(matches@ =~= matches@ + matches_at(row as int, Seq::<int>::empty(), len as int));
}

/// The UTF-8 bytes of a row's searched text.
fn searched_bytes(row: &Row, case_sensitive: bool) -> (b: Vec<u8>)
    ensures
        b@ == encode_utf8(searched_text(row@, case_sensitive)),
{
    let text = row_to_string(row.as_slice());
    let mut b: Vec<u8> = Vec::new();
    if case_sensitive {
        push_utf8(&mut b, text.as_str());
    } else {
        let lower = to_lowercase(text.as_str());
        push_utf8(&mut b, lower.as_str());
    }
    assert(b@ =~= encode_utf8(searched_text(row@, case_sensitive)));
    b
}

/// Appends the literal matches of `q` in one row.
fn push_row_literal(matches: &mut Vec<SearchMatch>, row: &Row, q: &[u8], case_sensitive: bool, index: usize, len: usize)
    requires
        q@.len() > 0,
    ensures
        final(matches)@ == old(matches)@ + matches_at(index as int,
            occurrences_from(encode_utf8(searched_text(row@, case_sensitive)), q@, 0), len as int),
{
    let text = searched_bytes(row, case_sensitive);
    push_occurrences(matches, text.as_slice(), q, index, len);
}

/// The literal matches over one more row extend those over the rows before it.
proof fn lemma_literal_step(all: Seq<Seq<Cell>>, i: int, q: Seq<u8>, case_sensitive: bool, len: int)
    requires
        0 <= i < all.len(),
    ensures
        literal_matches(all.take(i + 1), q, case_sensitive, len) == literal_matches(all.take(i), q, case_sensitive, len)
            + matches_at(i, occurrences_from(encode_utf8(searched_text(all[i], case_sensitive)), q, 0), len),
{
    assert(all.take(i + 1).drop_last() =~= all.take(i));
    assert(all.take(i + 1)[i] == all[i]);
}

/// The regular-expression matches over one more row extend those over the rows before it.
proof fn lemma_regex_step(all: Seq<Seq<Cell>>, i: int, pattern: Seq<char>)
    requires
        0 <= i < all.len(),
    ensures
        regex_matches(all.take(i + 1), pattern) == regex_matches(all.take(i), pattern)
            + span_matches(i, regex_spans(pattern, row_string(all[i]))),
{
    assert(all.take(i + 1).drop_last() =~= all.take(i));
    assert(all.take(i + 1)[i] == all[i]);
}

/// Appends the matches of row `index` at the byte spans `spans`.
pub fn push_span_matches(matches: &mut Vec<SearchMatch>, spans: &[(usize, usize)], index: usize)
    requires
        forall|i: int| 0 <= i < spans@.len() ==> (#[trigger] spans@[i]).0 <= spans@[i].1,
    ensures
        final(matches)@ == old(matches)@ + span_matches(index as int, spans@),
{
    let ghost all = span_matches(index as int, spans@);
    let mut k: usize = 0;
    while k < spans.len()
        invariant
            k <= spans@.len(),
            all == span_matches(index as int, spans@),
            forall|i: int| 0 <= i < spans@.len() ==> (#[trigger] spans@[i]).0 <= spans@[i].1,
            matches@ == old(matches)@ + all.take(k as int),
        decreases spans@.len() - k,
    {
        let (start, end) = spans[k];
        matches.push(SearchMatch { row: index, col: start, len: end - start });
        k = k + 1;
        assert(matches@ =~= old(matches)@ + all.take(k as int));
    }
    assert(all.take(k as int) =~= all);
}

/// Appends the regular-expression matches in one row.
fn push_spans(matches: &mut Vec<SearchMatch>, re: &CompiledRegex, row: &Row, index: usize)
    ensures
        final(matches)@ == old(matches)@ + span_matches(index as int, regex_spans(re.source(), row_string(row@))),
{
    let text = row_to_string(row.as_slice());
    let spans = find_spans(re, text.as_str());
    push_span_matches(matches, spans.as_slice(), index);
}

/// The bytes a literal search looks for, and its matches over history then screen.
#[verifier::rlimit(40)]
fn find_literal(grid: &Grid, query: &String, case_sensitive: bool) -> (r: (Vec<u8>, Vec<SearchMatch>))
    requires
        grid.wf(),
        grid.scrollback_view().len() + grid.num_rows() <= usize::MAX,
        query@.len() > 0,
    ensures
        r.0@ == literal_query(query@, case_sensitive),
        r.0@.len() > 0,
        r.1@ == literal_matches(grid.all_rows(), literal_query(query@, case_sensitive), case_sensitive,
            encode_utf8(query@).len() as int),
{
    proof { grid.lemma_wf(); }
    let cs = case_sensitive;
    let mut q: Vec<u8> = Vec::new();
    if cs {
        push_utf8(&mut q, query.as_str());
    } else {
        let lower = to_lowercase(query.as_str());
        push_utf8(&mut q, lower.as_str());
    }
    assert(q@ =~= encode_utf8(if cs { query@ } else { case_lower(query@) }));
    proof {
        crate::encode::lemma_encode_utf8_nonempty(if cs { query@ } else { case_lower(query@) });
    }
    let mut query_bytes: Vec<u8> = Vec::new();
    push_utf8(&mut query_bytes, query.as_str());
    let len = query_bytes.len();
    assert(len as int == encode_utf8(query@).len());
    let ghost all = grid.all_rows();
    let sb = grid.scrollback();
    let sb_len = sb.len();
    let mut matches: Vec<SearchMatch> = Vec::new();
    let mut i: usize = 0;
    assert(all.take(0) =~= Seq::<Seq<Cell>>::empty());
    while i < sb_len
        invariant
            i <= sb_len,
            sb_len == grid.scrollback_view().len(),
            all == grid.all_rows(),
            crate::grid::rows_of(sb@) == grid.scrollback_view(),
            q@.len() > 0,
            matches@ == literal_matches(all.take(i as int), q@, cs, len as int),
        decreases sb_len - i,
    {
        push_row_literal(&mut matches, &sb[i], q.as_slice(), cs, i, len);
        proof {
            assert(all[i as int] == sb@[i as int]@);
            lemma_literal_step(all, i as int, q@, cs, len as int);
        }
        i = i + 1;
    }
    let rows = grid.rows();
    let mut j: usize = 0;
    while j < rows
        invariant
            j <= rows,
            rows == grid.num_rows(),
            sb_len == grid.scrollback_view().len(),
            sb_len + rows <= usize::MAX,
            all == grid.all_rows(),
            all.len() == sb_len + rows,
            grid.lines_view().len() == rows,
            q@.len() > 0,
            matches@ == literal_matches(all.take(sb_len + j), q@, cs, len as int),
        decreases rows - j,
    {
        match grid.row(j) {
            Some(row) => {
                push_row_literal(&mut matches, row, q.as_slice(), cs, sb_len + j, len);
                proof {
                    assert(all[sb_len + j] == grid.lines_view()[j as int]);
                    lemma_literal_step(all, sb_len + j, q@, cs, len as int);
                }
            },
            None => {},
        }
        j = j + 1;
    }
    assert(all.take(sb_len + rows) =~= all);
    assert(matches@ == literal_matches(all, encode_utf8(if cs { query@ } else { case_lower(query@) }),
        cs, encode_utf8(query@).len() as int));
    assert(matches@ == literal_matches(all, literal_query(query@, cs), cs, encode_utf8(query@).len() as int));
    (q, matches)
}

impl SearchState {
    pub fn new(query: String, case_sensitive: bool, use_regex: bool) -> (s: SearchState)
        ensures
            s.query == query,
            s.case_sensitive == case_sensitive,
            s.use_regex == use_regex,
            s.matches@.len() == 0,
            s.current_match is None,
    {
        SearchState { query, case_sensitive, use_regex, matches: Vec::new(), current_match: None }
    }

    /// Searches history then screen for the query, replacing the matches and selecting the
    /// first; a regular expression that does not compile is reported with no matches left.
    pub fn search(&mut self, grid: &Grid) -> (r: Result<(), String>)
        requires
            grid.wf(),
            grid.scrollback_view().len() + grid.num_rows() <= usize::MAX,
            !search_resumes_mid_char(grid.all_rows(), old(self).query@, old(self).case_sensitive, old(self).use_regex),
        ensures
            search_result(*old(self), *final(self), grid.all_rows(), r),
    {
        self.matches = Vec::new();
        self.current_match = None;
        if self.query.as_str().is_empty() {
            return Ok(());
        }
        if self.use_regex {
            self.search_regex(grid)
        } else {
            let (_q, matches) = find_literal(grid, &self.query, self.case_sensitive);
            self.matches = matches;
            if self.matches.len() > 0 {
                self.current_match = Some(0);
            }
            Ok(())
        }
    }

    /// Searches as `search` does where a literal search never resumes inside a character;
    /// where it would, returns `None` and leaves the state as it was.
    pub fn try_search(&mut self, grid: &Grid) -> (r: Option<Result<(), String>>)
        requires
            grid.wf(),
            grid.scrollback_view().len() + grid.num_rows() <= usize::MAX,
        ensures
            r is None <==> search_resumes_mid_char(grid.all_rows(), old(self).query@, old(self).case_sensitive,
                old(self).use_regex),
            r is None ==> *final(self) == *old(self),
            r matches Some(res) ==> search_result(*old(self), *final(self), grid.all_rows(), res),
    {
        if self.query.as_str().is_empty() || self.use_regex {
            return Some(self.search(grid));
        }
        let (q, matches) = find_literal(grid, &self.query, self.case_sensitive);
        if q[0] >= 0x80 && matches.len() > 0 {
            return None;
        }
        self.matches = matches;
        self.current_match = if self.matches.len() > 0 { Some(0) } else { None };
        Some(Ok(()))
    }

    fn search_regex(&mut self, grid: &Grid) -> (r: Result<(), String>)
        requires
            grid.wf(),
            grid.scrollback_view().len() + grid.num_rows() <= usize::MAX,
            old(self).query@.len() > 0,
            old(self).use_regex,
            old(self).matches@.len() == 0,
            old(self).current_match is None,
        ensures
            final(self).query == old(self).query,
            final(self).case_sensitive == old(self).case_sensitive,
            final(self).use_regex == old(self).use_regex,
            match search_outcome(grid.all_rows(), old(self).query@, old(self).case_sensitive, old(self).use_regex) {
                Ok(ms) => {
                    &&& r is Ok
                    &&& final(self).matches@ == ms
                    &&& final(self).current_match == (if ms.len() > 0 { Some(0usize) } else { None })
                },
                Err(e) => {
                    &&& r matches Err(m) && m@ == e
                    &&& final(self).matches@.len() == 0
                    &&& final(self).current_match is None
                },
            },
    {
        proof { grid.lemma_wf(); }
        let mut pattern = if self.case_sensitive { String::new() } else { String::from_str("(?i)") };
        pattern.append(self.query.as_str());
        assert(pattern@ =~= regex_pattern(self.query@, self.case_sensitive));
        let re = match compile_regex(pattern.as_str()) {
            Ok(c) => c,
            Err(e) => {
                let mut message = String::from_str("Invalid regex: ");
                message.append(e.as_str());
                return Err(message);
            },
        };
        let ghost all = grid.all_rows();
        let ghost p = re.source();
        let sb = grid.scrollback();
        let sb_len = sb.len();
        let mut matches: Vec<SearchMatch> = Vec::new();
        let mut i: usize = 0;
        assert(all.take(0) =~= Seq::<Seq<Cell>>::empty());
        while i < sb_len
            invariant
                i <= sb_len,
                sb_len == grid.scrollback_view().len(),
                all == grid.all_rows(),
                p == re.source(),
                crate::grid::rows_of(sb@) == grid.scrollback_view(),
                matches@ == regex_matches(all.take(i as int), p),
            decreases sb_len - i,
        {
            push_spans(&mut matches, &re, &sb[i], i);
            proof {
                assert(all[i as int] == sb@[i as int]@);
                lemma_regex_step(all, i as int, p);
            }
            i = i + 1;
        }
        let rows = grid.rows();
        let mut j: usize = 0;
        while j < rows
            invariant
                j <= rows,
                rows == grid.num_rows(),
                sb_len == grid.scrollback_view().len(),
                sb_len + rows <= usize::MAX,
                all == grid.all_rows(),
                all.len() == sb_len + rows,
                p == re.source(),
                grid.lines_view().len() == rows,
                matches@ == regex_matches(all.take(sb_len + j), p),
            decreases rows - j,
        {
            match grid.row(j) {
                Some(row) => {
                    push_spans(&mut matches, &re, row, sb_len + j);
                    proof {
                        assert(all[sb_len + j] == grid.lines_view()[j as int]);
                        lemma_regex_step(all, sb_len + j, p);
                    }
                },
                None => {},
            }
            j = j + 1;
        }
        assert(all.take(sb_len + rows) =~= all);
        self.matches = matches;
        if self.matches.len() > 0 {
            self.current_match = Some(0);
        }
        Ok(())
    }

    /// Selects the next match, wrapping from the last to the first.
    pub fn next_match(&mut self)
        requires
            old(self).current_match matches Some(i) ==> i < usize::MAX,
        ensures
            final(self).current_match == next_index(old(self).current_match, old(self).matches@.len()),
            final(self).matches == old(self).matches,
            final(self).query == old(self).query,
            final(self).case_sensitive == old(self).case_sensitive,
            final(self).use_regex == old(self).use_regex,
    {
        if self.matches.len() == 0 {
            return;
        }
        self.current_match = Some(match self.current_match {
            Some(idx) => (idx + 1) % self.matches.len(),
            None => 0,
        });
    }

    /// Selects the previous match, wrapping from the first to the last.
    pub fn previous_match(&mut self)
        ensures
            final(self).current_match == previous_index(old(self).current_match, old(self).matches@.len()),
            final(self).matches == old(self).matches,
            final(self).query == old(self).query,
            final(self).case_sensitive == old(self).case_sensitive,
            final(self).use_regex == old(self).use_regex,
    {
        if self.matches.len() == 0 {
            return;
        }
        self.current_match = Some(match self.current_match {
            Some(0) => self.matches.len() - 1,
            Some(idx) => idx - 1,
            None => 0,
        });
    }

    /// The selected match, if the selection names one.
    pub fn current(&self) -> (r: Option<&SearchMatch>)
        ensures
            r is Some <==> (self.current_match matches Some(i) && i < self.matches@.len()),
            r matches Some(m) ==> *m == self.matches@[self.current_match->0 as int],
    {
        match self.current_match {
            Some(idx) => if idx < self.matches.len() { Some(&self.matches[idx]) } else { None },
            None => None,
        }
    }

    pub fn match_count(&self) -> (n: usize)
        ensures
            n == self.matches@.len(),
    {
        self.matches.len()
    }

    /// The selected match counted from one.
    pub fn current_index(&self) -> (r: Option<usize>)
        requires
            self.current_match matches Some(i) ==> i < usize::MAX,
        ensures
            r == (match self.current_match {
                Some(i) => Some((i + 1) as usize),
                None => None::<usize>,
            }),
    {
        match self.current_match {
            Some(idx) => Some(idx + 1),
            None => None,
        }
    }
}

/// Search over the terminal's rows: the query, how it is read, the matches found and the
/// selected one.
#[derive(Debug, Clone)]
pub struct SearchState {
    pub query: String,
    pub case_sensitive: bool,
    pub use_regex: bool,
    pub matches: Vec<SearchMatch>,
    pub current_match: Option<usize>,
}

} // verus!
