use vstd::prelude::*;

use crate::cell::Cell;
use crate::grid::{Grid, Row};
use crate::text::{
    char_is_alphanumeric, is_alphanumeric, is_whitespace, push_char, spec_is_ascii,
    spec_is_whitespace,
};

verus! {

/// A position on the displayed screen.
#[derive(Debug, Clone, Copy, PartialEq, Eq, Structural, PartialOrd, Ord)]
pub struct SelectionPos {
    pub row: usize,
    pub col: usize,
}

/// Reading order: by row, then by column.
pub open spec fn pos_le(a: SelectionPos, b: SelectionPos) -> bool {
    a.row < b.row || (a.row == b.row && a.col <= b.col)
}

impl SelectionPos {
    pub fn new(row: usize, col: usize) -> (p: SelectionPos)
        ensures
            p == (SelectionPos { row, col }),
    {
        SelectionPos { row, col }
    }

    /// Whether `self` comes no later than `other` in reading order.
    pub fn precedes_or_equals(&self, other: &SelectionPos) -> (b: bool)
        ensures
            b == pos_le(*self, *other),
    {
        self.row < other.row || (self.row == other.row && self.col <= other.col)
    }
}

/// An inclusive range of screen positions in reading order.
#[derive(Debug, Clone, Copy)]
pub struct Selection {
    start: SelectionPos,
    end: SelectionPos,
}

impl Selection {
    #[verifier::type_invariant]
    closed spec fn ordered(&self) -> bool {
        pos_le(self.start, self.end)
    }

    pub closed spec fn spec_start(&self) -> SelectionPos {
        self.start
    }

    pub closed spec fn spec_end(&self) -> SelectionPos {
        self.end
    }

    /// The two endpoints, ordered so that the start comes first.
    pub fn new(start: SelectionPos, end: SelectionPos) -> (s: Selection)
        ensures
            pos_le(start, end) ==> s.spec_start() == start && s.spec_end() == end,
            !pos_le(start, end) ==> s.spec_start() == end && s.spec_end() == start,
            pos_le(s.spec_start(), s.spec_end()),
    {
        if start.precedes_or_equals(&end) {
            Selection { start, end }
        } else {
            Selection { start: end, end: start }
        }
    }

    pub fn start(&self) -> (p: &SelectionPos)
        ensures
            *p == self.spec_start(),
    {
        &self.start
    }

    pub fn end(&self) -> (p: &SelectionPos)
        ensures
            *p == self.spec_end(),
    {
        &self.end
    }

    /// Whether (`row`, `col`) lies between the endpoints, both included.
    pub fn contains(&self, row: usize, col: usize) -> (b: bool)
        ensures
            b == (pos_le(self.spec_start(), SelectionPos { row, col })
                && pos_le(SelectionPos { row, col }, self.spec_end())),
    {
        let pos = SelectionPos::new(row, col);
        self.start.precedes_or_equals(&pos) && pos.precedes_or_equals(&self.end)
    }

    /// Whether row `row` holds part of the selection.
    pub fn intersects_row(&self, row: usize) -> (b: bool)
        ensures
            b == (self.spec_start().row <= row && row <= self.spec_end().row),
    {
        row >= self.start.row && row <= self.end.row
    }

    /// First column taken from displayed row `r`.
    pub open spec fn first_col(&self, r: int) -> int {
        if r == self.spec_start().row { self.spec_start().col as int } else { 0 }
    }

    /// Last column taken from displayed row `r` of length `len`.
    pub open spec fn last_col(&self, r: int, len: int) -> int {
        let last = if len > 0 { len - 1 } else { 0 };
        if r == self.spec_end().row {
            if (self.spec_end().col as int) < last { self.spec_end().col as int } else { last }
        } else {
            last
        }
    }

    /// The text copied from displayed row `r`, followed by a line break unless it is the last row.
    pub open spec fn row_text(&self, rows: Seq<Seq<Cell>>, r: int) -> Seq<char> {
        let line = rows[r];
        kept_chars(cells_in(line, self.first_col(r), self.last_col(r, line.len() as int)))
            + (if r != self.spec_end().row { seq!['\n'] } else { Seq::empty() })
    }

    /// The text of displayed rows from the start row up to (not including) row `k`.
    pub open spec fn text_upto(&self, rows: Seq<Seq<Cell>>, k: int) -> Seq<char>
        decreases k - self.spec_start().row,
    {
        if k <= self.spec_start().row {
            Seq::empty()
        } else {
            self.text_upto(rows, k - 1) + self.row_text(rows, k - 1)
        }
    }

    /// The selected text of the displayed rows `rows`: rows past the end of the display are
    /// skipped, spacer cells and NUL characters are left out.
    pub open spec fn spec_text(&self, rows: Seq<Seq<Cell>>) -> Seq<char> {
        let stop = if (self.spec_end().row as int) < rows.len() { self.spec_end().row + 1 } else { rows.len() as int };
        self.text_upto(rows, stop)
    }

    /// The selected text of what `grid` displays.
    pub fn text(&self, grid: &Grid) -> (s: String)
        requires
            grid.wf(),
            grid.scrollback_view().len() + grid.num_rows() <= usize::MAX,
        ensures
            s@ == self.spec_text(grid.displayed()),
    {
        proof { use_type_invariant(self); }
        let visible = grid.visible_lines();
        let ghost rows = grid.displayed();
        let mut result = String::new();
        let mut row = self.start.row;
        loop
            invariant_except_break
                result@ == self.text_upto(rows, row as int),
            invariant
                visible@.len() == rows.len(),
                forall|i: int| 0 <= i < visible@.len() ==> (#[trigger] visible@[i])@ == rows[i],
                self.start.row <= row,
                row <= self.end.row,
                row == self.start.row || row <= rows.len(),
            ensures
                result@ == self.spec_text(rows),
            decreases self.end.row - row,
        {
            if row >= visible.len() {
                proof {
                    if row > rows.len() {
                        assert(self.text_upto(rows, row as int) =~= Seq::empty());
                        assert(self.text_upto(rows, rows.len() as int) =~= Seq::empty());
                    }
                }
                break;
            }
            let line: &Row = visible[row];
            let len = line.len();
            let col_start = if row == self.start.row { self.start.col } else { 0 };
            let last = if len > 0 { len - 1 } else { 0 };
            let col_end = if row == self.end.row {
                if self.end.col < last { self.end.col } else { last }
            } else {
                last
            };
            let ghost before = result@;
            let mut col = col_start;
            while col <= col_end && col < len
                invariant
                    col_start <= col,
                    col == col_start || col - 1 <= col_end,
                    col_end < len || len == 0,
                    len == line@.len(),
                    line@ == rows[row as int],
                    result@ == before + kept_chars(cells_in(line@, col_start as int, col as int - 1)),
                decreases len - col,
            {
                let cell = &line[col];
                proof {
                    lemma_cells_in_extend(line@, col_start as int, col as int);
                }
                if cell.character != '\0' && !cell.is_wide_spacer() {
                    push_char(&mut result, cell.character);
                }
                col = col + 1;
            }
            proof {
                lemma_cells_in_clip(line@, col_start as int, col as int - 1, col_end as int);
            }
            if row != self.end.row {
                push_char(&mut result, '\n');
            }
            assert(result@ =~= self.text_upto(rows, row as int + 1));
            if row == self.end.row {
                break;
            }
            row = row + 1;
        }
        result
    }
}

/// Lexical class of a character, used to grow a double-click selection.
#[derive(Debug, Clone, Copy, PartialEq, Eq, Structural)]
pub enum TokenClass {
    Word,
    Whitespace,
    Symbol,
}

/// The column of the character that covers column `col`: spacer columns step back to the
/// wide character they belong to.
pub open spec fn lead_at(line: Seq<Cell>, col: int) -> int
    decreases col,
{
    if col > 0 && col < line.len() && line[col].spec_is_wide_spacer() {
        lead_at(line, col - 1)
    } else {
        col
    }
}

/// `col` clamped to the line, then moved to the character that covers it.
pub open spec fn spec_normalize_to_lead(line: Seq<Cell>, col: int) -> int {
    let last = if line.len() > 0 { line.len() - 1 } else { 0 };
    lead_at(line, if col < last { col } else { last })
}

/// Last column occupied by the character at `col` (its spacer for a wide character).
pub open spec fn spec_logical_end_col(line: Seq<Cell>, col: int) -> int {
    if 0 <= col < line.len() && line[col].spec_is_wide() && col + 1 < line.len() {
        col + 1
    } else {
        col
    }
}

/// Start column of the character before column `col`.
pub open spec fn spec_previous_logical_col(line: Seq<Cell>, col: int) -> Option<int> {
    if col == 0 {
        None
    } else {
        Some(lead_at(line, col - 1))
    }
}

/// Start column of the character after the one at `col`.
pub open spec fn spec_next_logical_col(line: Seq<Cell>, col: int) -> Option<int> {
    let next = spec_logical_end_col(line, col) + 1;
    if next < line.len() { Some(next) } else { None }
}

/// Not whitespace, not alphanumeric and not an underscore.
pub open spec fn spec_is_symbol_char(ch: char) -> bool {
    !spec_is_whitespace(ch) && !char_is_alphanumeric(ch) && ch != '_'
}

/// Lexical class of a character.
pub open spec fn class_of(ch: char) -> TokenClass {
    if spec_is_whitespace(ch) {
        TokenClass::Whitespace
    } else if char_is_alphanumeric(ch) || ch == '_' || (!spec_is_ascii(ch) && !spec_is_symbol_char(ch)) {
        TokenClass::Word
    } else {
        TokenClass::Symbol
    }
}

/// Class of the character covering column `col`; none for an empty line or a stray spacer.
pub open spec fn spec_classify_cell(line: Seq<Cell>, col: int) -> Option<TokenClass> {
    let c = spec_normalize_to_lead(line, col);
    if !(0 <= c < line.len()) {
        None
    } else if line[c].spec_is_wide_spacer() {
        None
    } else {
        Some(class_of(line[c].character))
    }
}

/// Leftmost column reached from `col` by stepping back over characters of class `class`.
pub open spec fn scan_left(line: Seq<Cell>, col: int, class: TokenClass) -> int
    decreases col,
{
    if col <= 0 {
        col
    } else {
        let prev = lead_at(line, col - 1);
        if 0 <= prev < col && spec_classify_cell(line, prev) == Some(class) {
            scan_left(line, prev, class)
        } else {
            col
        }
    }
}

/// Rightmost character start reached from `col` by stepping forward over characters of class `class`.
pub open spec fn scan_right(line: Seq<Cell>, col: int, class: TokenClass) -> int
    decreases line.len() - col,
{
    if col < 0 || col >= line.len() {
        col
    } else {
        let next = spec_logical_end_col(line, col) + 1;
        if next < line.len() && spec_classify_cell(line, next) == Some(class) {
            scan_right(line, next, class)
        } else {
            col
        }
    }
}

/// The covering character starts at or before the column.
pub proof fn lemma_lead_at_bounds(line: Seq<Cell>, col: int)
    requires
        0 <= col,
    ensures
        0 <= lead_at(line, col) <= col,
    decreases col,
{
    if col > 0 && col < line.len() && line[col].spec_is_wide_spacer() {
        lemma_lead_at_bounds(line, col - 1);
    }
}

/// Whether a cell shows visible content (not blank, NUL or a spacer).
pub open spec fn has_content(c: Cell) -> bool {
    c.character != ' ' && c.character != '\0' && !c.spec_is_wide_spacer()
}

/// The character-by-character walk of `line_bounds` from column `col` moves forward at every
/// step (it stalls on a spacer that follows a narrow character).
pub open spec fn line_walk_advances(line: Seq<Cell>, col: int) -> bool
    decreases line.len() - col,
{
    if col < 0 || col >= line.len() {
        true
    } else {
        let lead = spec_normalize_to_lead(line, col);
        match spec_next_logical_col(line, lead) {
            None => true,
            Some(n) => n > col && line_walk_advances(line, n),
        }
    }
}

/// End column of the last character with content met by the walk from `col`, starting from `last`.
pub open spec fn last_content_end(line: Seq<Cell>, col: int, last: Option<int>) -> Option<int>
    decreases line.len() - col,
{
    if col < 0 || col >= line.len() {
        last
    } else {
        let lead = spec_normalize_to_lead(line, col);
        let last2 = if has_content(line[lead]) { Some(spec_logical_end_col(line, lead)) } else { last };
        match spec_next_logical_col(line, lead) {
            None => last2,
            Some(n) => if n > col { last_content_end(line, n, last2) } else { last2 },
        }
    }
}

/// The bounds a click at (`row`, `col`) selects on displayed rows `rows`, for a selection
/// unit given by `f` on a non-empty line.
pub open spec fn bounds_on(rows: Seq<Seq<Cell>>, row: usize, f: spec_fn(Seq<Cell>) -> Option<(int, int)>) -> Option<(SelectionPos, SelectionPos)> {
    if row >= rows.len() {
        None
    } else if rows[row as int].len() == 0 {
        Some((SelectionPos { row, col: 0 }, SelectionPos { row, col: 0 }))
    } else {
        match f(rows[row as int]) {
            None => None,
            Some((a, b)) => Some((SelectionPos { row, col: a as usize }, SelectionPos { row, col: b as usize })),
        }
    }
}

/// The character under `col`: its start and end columns.
pub open spec fn cell_unit(line: Seq<Cell>, col: usize) -> Option<(int, int)> {
    let lead = spec_normalize_to_lead(line, col as int);
    Some((lead, spec_logical_end_col(line, lead)))
}

/// The run of characters of one class around `col`.
pub open spec fn word_unit(line: Seq<Cell>, col: usize) -> Option<(int, int)> {
    let anchor = spec_normalize_to_lead(line, col as int);
    match spec_classify_cell(line, anchor) {
        None => None,
        Some(class) => Some((scan_left(line, anchor, class), spec_logical_end_col(line, scan_right(line, anchor, class)))),
    }
}

/// The line from its first column to the end of its last character with content.
pub open spec fn line_unit(line: Seq<Cell>) -> Option<(int, int)> {
    match last_content_end(line, 0, None) {
        None => Some((0, 0)),
        Some(e) => Some((0, e)),
    }
}

/// Whether a cell contributes its character to copied text.
pub open spec fn keeps_char(c: Cell) -> bool {
    c.character != '\0' && !c.spec_is_wide_spacer()
}

/// The characters of the kept cells of `s`, in order.
pub open spec fn kept_chars(s: Seq<Cell>) -> Seq<char>
    decreases s.len(),
{
    if s.len() == 0 {
        Seq::empty()
    } else {
        let rest = kept_chars(s.drop_last());
        if keeps_char(s.last()) {
            rest.push(s.last().character)
        } else {
            rest
        }
    }
}

/// The cells of `line` in columns `lo..=hi` that exist.
pub open spec fn cells_in(line: Seq<Cell>, lo: int, hi: int) -> Seq<Cell> {
    let top = if hi + 1 < line.len() { hi + 1 } else { line.len() as int };
    if lo < top {
        line.subrange(lo, top)
    } else {
        Seq::empty()
    }
}

proof fn lemma_cells_in_extend(line: Seq<Cell>, lo: int, c: int)
    requires
        0 <= lo <= c < line.len(),
    ensures
        cells_in(line, lo, c) == cells_in(line, lo, c - 1).push(line[c]),
        kept_chars(cells_in(line, lo, c)) == if keeps_char(line[c]) {
            kept_chars(cells_in(line, lo, c - 1)).push(line[c].character)
        } else {
            kept_chars(cells_in(line, lo, c - 1))
        },
{
    assert(cells_in(line, lo, c) =~= cells_in(line, lo, c - 1).push(line[c]));
    assert(cells_in(line, lo, c).drop_last() =~= cells_in(line, lo, c - 1));
}

proof fn lemma_cells_in_clip(line: Seq<Cell>, lo: int, reached: int, hi: int)
    requires
        0 <= lo,
        reached == hi || (reached == lo - 1 && (lo > hi || lo >= line.len())),
    ensures
        cells_in(line, lo, reached) == cells_in(line, lo, hi),
{
    assert(cells_in(line, lo, reached) =~= cells_in(line, lo, hi));
}

} // verus!

verus! {

/// Moves `col` onto the line and back to the start of the character covering it.
pub fn normalize_to_lead(line: &[Cell], col: usize) -> (c: usize)
    ensures
        c == spec_normalize_to_lead(line@, col as int),
        line@.len() > 0 ==> c < line@.len(),
        line@.len() == 0 ==> c == 0,
{
    let last = if line.len() > 0 { line.len() - 1 } else { 0 };
    let mut c = if col < last { col } else { last };
    while c > 0 && line[c].is_wide_spacer()
        invariant
            c <= last,
            last < line@.len() || last == 0,
            lead_at(line@, c as int) == spec_normalize_to_lead(line@, col as int),
        decreases c,
    {
        c = c - 1;
    }
    proof {
        if !(c > 0 && c < line@.len() && line@[c as int].spec_is_wide_spacer()) {
            assert(lead_at(line@, c as int) == c);
        }
    }
    c
}

/// Last column occupied by the character at `col`.
pub fn logical_end_col(line: &[Cell], col: usize) -> (c: usize)
    ensures
        c == spec_logical_end_col(line@, col as int),
{
    if col < line.len() && line[col].is_wide() && col + 1 < line.len() {
        col + 1
    } else {
        col
    }
}

/// Start column of the character before column `col`, if any.
pub fn previous_logical_col(line: &[Cell], col: usize) -> (p: Option<usize>)
    requires
        col <= line@.len(),
    ensures
        p matches Some(v) ==> spec_previous_logical_col(line@, col as int) == Some(v as int),
        p is None ==> spec_previous_logical_col(line@, col as int) is None,
{
    if col == 0 {
        return None;
    }
    let mut prev = col - 1;
    while prev > 0 && line[prev].is_wide_spacer()
        invariant
            prev < col,
            col <= line@.len(),
            lead_at(line@, prev as int) == lead_at(line@, col - 1),
        decreases prev,
    {
        prev = prev - 1;
    }
    Some(prev)
}

/// Start column of the character after the one at `col`, if it is on the line.
pub fn next_logical_col(line: &[Cell], col: usize) -> (n: Option<usize>)
    ensures
        n matches Some(v) ==> spec_next_logical_col(line@, col as int) == Some(v as int),
        n is None ==> spec_next_logical_col(line@, col as int) is None,
{
    let n = line.len();
    let end = logical_end_col(line, col);
    let next = if end < usize::MAX { end + 1 } else { end };
    if end < usize::MAX && next < n {
        Some(next)
    } else {
        None
    }
}

/// Whether `ch` counts as a symbol rather than whitespace or part of a word.
pub fn is_symbol_char(ch: char) -> (b: bool)
    ensures
        b == spec_is_symbol_char(ch),
{
    !is_whitespace(ch) && !is_alphanumeric(ch) && ch != '_'
}

/// Lexical class of the character covering column `col`.
pub fn classify_cell(line: &[Cell], col: usize) -> (t: Option<TokenClass>)
    ensures
        t == spec_classify_cell(line@, col as int),
{
    let c = normalize_to_lead(line, col);
    if c >= line.len() {
        return None;
    }
    let cell = &line[c];
    if cell.is_wide_spacer() {
        return None;
    }
    let ch = cell.character;
    if is_whitespace(ch) {
        Some(TokenClass::Whitespace)
    } else if is_alphanumeric(ch) || ch == '_' || (!((ch as u32) < 0x80) && !is_symbol_char(ch)) {
        Some(TokenClass::Word)
    } else {
        Some(TokenClass::Symbol)
    }
}

} // verus!

verus! {

/// Start and end of the character displayed at (`row`, `col`); `None` past the last row.
pub fn cell_bounds(grid: &Grid, row: usize, col: usize) -> (r: Option<(SelectionPos, SelectionPos)>)
    requires
        grid.wf(),
        grid.scrollback_view().len() + grid.num_rows() <= usize::MAX,
    ensures
        r == bounds_on(grid.displayed(), row, |line: Seq<Cell>| cell_unit(line, col)),
{
    let visible = grid.visible_lines();
    if row >= visible.len() {
        return None;
    }
    let line: &Row = visible[row];
    if line.len() == 0 {
        return Some((SelectionPos::new(row, 0), SelectionPos::new(row, 0)));
    }
    let lead = normalize_to_lead(line.as_slice(), col);
    Some((SelectionPos::new(row, lead), SelectionPos::new(row, logical_end_col(line.as_slice(), lead))))
}

/// Start and end of the run of same-class characters (word, whitespace or symbols) under
/// (`row`, `col`); `None` past the last row or on a stray spacer cell.
pub fn word_bounds(grid: &Grid, row: usize, col: usize) -> (r: Option<(SelectionPos, SelectionPos)>)
    requires
        grid.wf(),
        grid.scrollback_view().len() + grid.num_rows() <= usize::MAX,
    ensures
        r == bounds_on(grid.displayed(), row, |line: Seq<Cell>| word_unit(line, col)),
{
    let visible = grid.visible_lines();
    if row >= visible.len() {
        return None;
    }
    let line: &Row = visible[row];
    if line.len() == 0 {
        return Some((SelectionPos::new(row, 0), SelectionPos::new(row, 0)));
    }
    let line = line.as_slice();
    let anchor = normalize_to_lead(line, col);
    let class = match classify_cell(line, anchor) {
        Some(c) => c,
        None => return None,
    };
    let mut start = anchor;
    loop
        invariant
            start <= anchor,
            anchor < line@.len(),
            scan_left(line@, start as int, class) == scan_left(line@, anchor as int, class),
        ensures
            start as int == scan_left(line@, anchor as int, class),
        decreases start,
    {
        match previous_logical_col(line, start) {
            Some(prev) => {
                proof { lemma_lead_at_bounds(line@, start - 1); }
                if classify_cell(line, prev) != Some(class) {
                    break;
                }
                start = prev;
            },
            None => break,
        }
    }
    let mut end_lead = anchor;
    loop
        invariant
            anchor <= end_lead < line@.len(),
            scan_right(line@, end_lead as int, class) == scan_right(line@, anchor as int, class),
        ensures
            end_lead as int == scan_right(line@, anchor as int, class),
        decreases line@.len() - end_lead,
    {
        match next_logical_col(line, end_lead) {
            Some(next) => {
                if classify_cell(line, next) != Some(class) {
                    break;
                }
                end_lead = next;
            },
            None => break,
        }
    }
    Some((SelectionPos::new(row, start), SelectionPos::new(row, logical_end_col(line, end_lead))))
}

/// The whole of displayed row `row` up to the end of its last character with content
/// (column 0 for a blank row); `None` past the last row.
pub fn line_bounds(grid: &Grid, row: usize) -> (r: Option<(SelectionPos, SelectionPos)>)
    requires
        grid.wf(),
        grid.scrollback_view().len() + grid.num_rows() <= usize::MAX,
        row < grid.num_rows() ==> line_walk_advances(grid.displayed()[row as int], 0),
    ensures
        r == bounds_on(grid.displayed(), row, |line: Seq<Cell>| line_unit(line)),
{
    let visible = grid.visible_lines();
    if row >= visible.len() {
        return None;
    }
    let line: &Row = visible[row];
    if line.len() == 0 {
        return Some((SelectionPos::new(row, 0), SelectionPos::new(row, 0)));
    }
    let line = line.as_slice();
    let ghost l = line@;
    let mut last_content_col: Option<usize> = None;
    let mut col: usize = 0;
    while col < line.len()
        invariant_except_break
            last_content_end(l, col as int, if last_content_col is Some { Some(last_content_col->0 as int) } else { None })
                == last_content_end(l, 0, None),
            line_walk_advances(l, col as int),
        invariant
            l == line@,
        ensures
            (if last_content_col is Some { Some(last_content_col->0 as int) } else { None }) == last_content_end(l, 0, None),
        decreases line@.len() - col,
    {
        let lead = normalize_to_lead(line, col);
        let cell = &line[lead];
        if cell.character != ' ' && cell.character != '\0' && !cell.is_wide_spacer() {
            last_content_col = Some(logical_end_col(line, lead));
        }
        col = match next_logical_col(line, lead) {
            Some(next) => next,
            None => break,
        };
    }
    let end = match last_content_col {
        Some(e) => e,
        None => 0,
    };
    Some((SelectionPos::new(row, 0), SelectionPos::new(row, end)))
}

/// Whether `line_bounds` finishes on displayed row `row`: the walk along the row always moves
/// forward (past the last row there is nothing to walk).
pub fn line_walk_terminates(grid: &Grid, row: usize) -> (b: bool)
    requires
        grid.wf(),
        grid.scrollback_view().len() + grid.num_rows() <= usize::MAX,
    ensures
        b == (row < grid.num_rows() ==> line_walk_advances(grid.displayed()[row as int], 0)),
{
    let visible = grid.visible_lines();
    if row >= visible.len() {
        return true;
    }
    let line = visible[row].as_slice();
    let ghost l = line@;
    let mut col: usize = 0;
    loop
        invariant
            l == line@,
            l == grid.displayed()[row as int],
            row < grid.num_rows(),
            line_walk_advances(l, col as int) == line_walk_advances(l, 0),
        decreases line@.len() - col,
    {
        if col >= line.len() {
            return true;
        }
        let lead = normalize_to_lead(line, col);
        match next_logical_col(line, lead) {
            None => {
                return true;
            },
            Some(n) => {
                if n <= col {
                    return false;
                }
                col = n;
            },
        }
    }
}

} // verus!
