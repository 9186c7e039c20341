use vstd::prelude::*;

use crate::cell::{Cell, CellFlags, Color};

verus! {

/// One line of cells.
pub type Row = Vec<Cell>;

/// `n` copies of `template`.
pub open spec fn blank_row(n: nat, template: Cell) -> Seq<Cell> {
    Seq::new(n, |i: int| template)
}

/// The cell sequences of a list of rows.
pub open spec fn rows_of(v: Seq<Row>) -> Seq<Seq<Cell>> {
    v.map_values(|r: Row| r@)
}

/// `a` with the first `a.len() - limit` entries dropped when it is longer than `limit`.
pub open spec fn keep_last<T>(a: Seq<T>, limit: nat) -> Seq<T> {
    if a.len() > limit {
        a.subrange(a.len() - limit, a.len() as int)
    } else {
        a
    }
}

pub open spec fn min_nat(a: nat, b: nat) -> nat {
    if a < b { a } else { b }
}

/// Index of the last row of an `n`-row screen (0 when empty).
pub open spec fn last_row(n: nat) -> nat {
    if n > 0 { (n - 1) as nat } else { 0 }
}

/// Rows `top..=bottom` of `l` moved up by one, the freed bottom row blank.
pub open spec fn shifted_up(l: Seq<Seq<Cell>>, top: int, bottom: int, blank: Seq<Cell>) -> Seq<Seq<Cell>> {
    l.subrange(0, top) + l.subrange(top + 1, bottom + 1) + seq![blank] + l.subrange(bottom + 1, l.len() as int)
}

/// Rows `top..=bottom` of `l` moved down by one, the freed top row blank.
pub open spec fn shifted_down(l: Seq<Seq<Cell>>, top: int, bottom: int, blank: Seq<Cell>) -> Seq<Seq<Cell>> {
    l.subrange(0, top) + seq![blank] + l.subrange(top, bottom) + l.subrange(bottom + 1, l.len() as int)
}

/// One upward scroll of rows `t..=b` of `l`, with history `h`: when the region starts at the
/// top row the leaving row joins the history, which keeps its last `limit` rows.
pub open spec fn up_step(l: Seq<Seq<Cell>>, h: Seq<Seq<Cell>>, t: int, b: int, blank: Seq<Cell>, limit: nat)
    -> (Seq<Seq<Cell>>, Seq<Seq<Cell>>)
{
    (
        if t < b { shifted_up(l, t, b, blank) } else { l },
        if t == 0 && b > 0 && limit > 0 { keep_last(h.push(l[0]), limit) } else { h },
    )
}

/// `n` upward scrolls.
pub open spec fn up_n(l: Seq<Seq<Cell>>, h: Seq<Seq<Cell>>, t: int, b: int, blank: Seq<Cell>, limit: nat, n: nat)
    -> (Seq<Seq<Cell>>, Seq<Seq<Cell>>)
    decreases n,
{
    if n == 0 {
        (l, h)
    } else {
        let prev = up_n(l, h, t, b, blank, limit, (n - 1) as nat);
        up_step(prev.0, prev.1, t, b, blank, limit)
    }
}

/// `n` downward scrolls of rows `t..=b` of `l`.
pub open spec fn down_n(l: Seq<Seq<Cell>>, t: int, b: int, blank: Seq<Cell>, n: nat) -> Seq<Seq<Cell>>
    decreases n,
{
    if n == 0 {
        l
    } else {
        let prev = down_n(l, t, b, blank, (n - 1) as nat);
        if t < b { shifted_down(prev, t, b, blank) } else { prev }
    }
}

/// `r` cut or padded with `template` to `n` cells.
pub open spec fn resized_row(r: Seq<Cell>, n: nat, template: Cell) -> Seq<Cell> {
    if n <= r.len() {
        r.subrange(0, n as int)
    } else {
        r + blank_row((n - r.len()) as nat, template)
    }
}

/// `r` with the cells at indices in `lo..hi` replaced by `template`.
pub open spec fn blanked(r: Seq<Cell>, lo: int, hi: int, template: Cell) -> Seq<Cell> {
    Seq::new(r.len(), |i: int| if lo <= i < hi { template } else { r[i] })
}

/// The screen: visible rows, scrollback history and scrolling state.
#[derive(Debug)]
pub struct Grid {
    lines: Vec<Row>,
    cols: usize,
    rows: usize,
    scrollback: Vec<Row>,
    scrollback_limit: usize,
    scroll_top: usize,
    scroll_bottom: usize,
    display_offset: usize,
    template_cell: Cell,
}

/// A fresh row of `cols` copies of `template_cell`.
pub fn new_row(cols: usize, template_cell: &Cell) -> (r: Row)
    ensures
        r@ == blank_row(cols as nat, *template_cell),
{
    let mut r: Row = Vec::new();
    let mut i: usize = 0;
    while i < cols
        invariant
            i <= cols,
            r@ == blank_row(i as nat, *template_cell),
        decreases cols - i,
    {
        r.push(*template_cell);
        i = i + 1;
    }
    r
}

/// A copy of `row`.
fn copy_row(row: &Row) -> (r: Row)
    ensures
        r@ == row@,
{
    let mut r: Row = Vec::new();
    let mut i: usize = 0;
    while i < row.len()
        invariant
            i <= row@.len(),
            r@ == row@.take(i as int),
        decreases row@.len() - i,
    {
        r.push(row[i]);
        i = i + 1;
        assert(r@ =~= row@.take(i as int));
    }
    assert(row@.take(i as int) =~= row@);
    r
}

/// Cuts `row` to `n` cells or pads it with `template`.
pub fn fit_row(row: &mut Row, n: usize, template: Cell)
    ensures
        final(row)@ == resized_row(old(row)@, n as nat, template),
{
    if n <= row.len() {
        row.truncate(n);
    } else {
        let ghost r0 = row@;
        let mut k = row.len();
        while k < n
            invariant
                r0.len() <= k <= n,
                row@ == r0 + blank_row((k - r0.len()) as nat, template),
            decreases n - k,
        {
            row.push(template);
            k = k + 1;
            assert(row@ =~= r0 + blank_row((k - r0.len()) as nat, template));
        }
    }
}

impl Grid {
    /// The visible rows.
    pub closed spec fn lines_view(&self) -> Seq<Seq<Cell>> {
        rows_of(self.lines@)
    }

    /// The history rows, oldest first.
    pub closed spec fn scrollback_view(&self) -> Seq<Seq<Cell>> {
        rows_of(self.scrollback@)
    }

    pub closed spec fn num_rows(&self) -> nat {
        self.rows as nat
    }

    pub closed spec fn num_cols(&self) -> nat {
        self.cols as nat
    }

    pub closed spec fn limit(&self) -> nat {
        self.scrollback_limit as nat
    }

    pub closed spec fn top(&self) -> nat {
        self.scroll_top as nat
    }

    pub closed spec fn bottom(&self) -> nat {
        self.scroll_bottom as nat
    }

    pub closed spec fn offset(&self) -> nat {
        self.display_offset as nat
    }

    /// The blank cell used for new and cleared cells.
    pub closed spec fn template(&self) -> Cell {
        self.template_cell
    }

    /// A row of the grid's blank cells.
    pub open spec fn blank(&self) -> Seq<Cell> {
        blank_row(self.num_cols(), self.template())
    }

    /// Shape invariant: `rows` rows of `cols` cells, the scroll bottom inside the screen,
    /// no more history than its limit, and a blank template cell.
    pub closed spec fn wf(&self) -> bool {
        &&& self.lines@.len() == self.rows
        &&& self.scrollback@.len() <= self.scrollback_limit
        &&& forall|i: int| 0 <= i < self.lines@.len() ==> #[trigger] self.lines@[i]@.len() == self.cols
        &&& (self.scroll_bottom < self.rows || (self.rows == 0 && self.scroll_bottom == 0))
        &&& self.template_cell.character == ' '
        &&& self.template_cell.flags == CellFlags(0)
    }

    /// Consequences of `wf` that callers may use.
    pub proof fn lemma_wf(&self)
        requires
            self.wf(),
        ensures
            self.lines_view().len() == self.num_rows(),
            forall|i: int| 0 <= i < self.num_rows() ==> #[trigger] self.lines_view()[i].len() == self.num_cols(),
            self.bottom() < self.num_rows() || (self.num_rows() == 0 && self.bottom() == 0),
            self.scrollback_view().len() <= self.limit(),
            self.template().character == ' ',
            self.template().flags == CellFlags(0),
    {
        assert forall|i: int| 0 <= i < self.num_rows() implies #[trigger] self.lines_view()[i].len() == self.num_cols() by {
            assert(self.lines@[i]@.len() == self.cols);
        }
    }

    pub fn new(rows: usize, cols: usize, scrollback_limit: usize) -> (g: Grid)
        ensures
            g.wf(),
            g.num_rows() == rows,
            g.num_cols() == cols,
            g.limit() == scrollback_limit,
            g.template() == Cell::spec_blank(Color::spec_default_fg(), Color::spec_default_bg()),
            g.lines_view() == Seq::new(rows as nat, |i: int| g.blank()),
            g.scrollback_view() == Seq::<Seq<Cell>>::empty(),
            g.top() == 0,
            g.bottom() == (if rows > 0 { rows - 1 } else { 0 }),
            g.offset() == 0,
    {
        Self::with_colors(rows, cols, scrollback_limit, Color::default_fg(), Color::default_bg())
    }

    /// A blank grid whose empty cells use the given colours.
    pub fn with_colors(
        rows: usize,
        cols: usize,
        scrollback_limit: usize,
        default_foreground: Color,
        default_background: Color,
    ) -> (g: Grid)
        ensures
            g.wf(),
            g.num_rows() == rows,
            g.num_cols() == cols,
            g.limit() == scrollback_limit,
            g.template() == Cell::spec_blank(default_foreground, default_background),
            g.lines_view() == Seq::new(rows as nat, |i: int| g.blank()),
            g.scrollback_view() == Seq::<Seq<Cell>>::empty(),
            g.top() == 0,
            g.bottom() == (if rows > 0 { rows - 1 } else { 0 }),
            g.offset() == 0,
    {
        let template_cell = Cell::blank_with_colors(default_foreground, default_background);
        let mut lines: Vec<Row> = Vec::new();
        let mut i: usize = 0;
        while i < rows
            invariant
                i <= rows,
                lines@.len() == i,
                forall|j: int| 0 <= j < i ==> #[trigger] lines@[j]@ == blank_row(cols as nat, template_cell),
            decreases rows - i,
        {
            lines.push(new_row(cols, &template_cell));
            i = i + 1;
        }
        let g = Grid {
            lines,
            cols,
            rows,
            scrollback: Vec::new(),
            scrollback_limit,
            scroll_top: 0,
            scroll_bottom: if rows > 0 { rows - 1 } else { 0 },
            display_offset: 0,
            template_cell,
        };
        assert(g.lines_view() =~= Seq::new(rows as nat, |i: int| g.blank()));
        assert(g.scrollback_view() =~= Seq::<Seq<Cell>>::empty());
        g
    }

    pub fn rows(&self) -> (n: usize)
        ensures
            n == self.num_rows(),
    {
        self.rows
    }

    pub fn scrollback_len(&self) -> (n: usize)
        ensures
            n == self.scrollback_view().len(),
    {
        self.scrollback.len()
    }

    /// The history rows, oldest first.
    pub fn scrollback(&self) -> (s: &[Row])
        ensures
            rows_of(s@) == self.scrollback_view(),
    {
        self.scrollback.as_slice()
    }

    pub fn cols(&self) -> (n: usize)
        ensures
            n == self.num_cols(),
    {
        self.cols
    }

    pub fn scroll_top(&self) -> (n: usize)
        ensures
            n == self.top(),
    {
        self.scroll_top
    }

    pub fn scroll_bottom(&self) -> (n: usize)
        ensures
            n == self.bottom(),
    {
        self.scroll_bottom
    }

    /// The visible row `row`, if it exists.
    pub fn row(&self, row: usize) -> (r: Option<&Row>)
        ensures
            r is Some <==> row < self.lines_view().len(),
            r matches Some(x) ==> x@ == self.lines_view()[row as int],
    {
        if row < self.lines.len() {
            Some(&self.lines[row])
        } else {
            None
        }
    }

    /// The cell at (`row`, `col`), if it exists.
    pub fn cell(&self, row: usize, col: usize) -> (c: Option<&Cell>)
        ensures
            c is Some <==> (row < self.lines_view().len() && col < self.lines_view()[row as int].len()),
            c matches Some(x) ==> *x == self.lines_view()[row as int][col as int],
    {
        if row < self.lines.len() {
            let r = &self.lines[row];
            if col < r.len() {
                return Some(&r[col]);
            }
        }
        None
    }

    /// Every field but the visible rows is the same in both grids.
    pub open spec fn same_but_lines(&self, other: &Grid) -> bool {
        &&& self.num_rows() == other.num_rows()
        &&& self.num_cols() == other.num_cols()
        &&& self.scrollback_view() == other.scrollback_view()
        &&& self.limit() == other.limit()
        &&& self.top() == other.top()
        &&& self.bottom() == other.bottom()
        &&& self.offset() == other.offset()
        &&& self.template() == other.template()
    }

    /// Writes `cell` at (`row`, `col`); positions outside the screen are ignored.
    pub fn write_cell(&mut self, row: usize, col: usize, cell: Cell)
        requires
            old(self).wf(),
        ensures
            final(self).wf(),
            final(self).same_but_lines(old(self)),
            final(self).lines_view() == (if row < old(self).num_rows() && col < old(self).num_cols() {
                old(self).lines_view().update(row as int, old(self).lines_view()[row as int].update(col as int, cell))
            } else {
                old(self).lines_view()
            }),
    {
        if row < self.lines.len() {
            if col < self.lines[row].len() {
                self.lines[row].set(col, cell);
                proof {
                    assert(self.lines_view() =~= old(self).lines_view().update(row as int, old(self).lines_view()[row as int].update(col as int, cell)));
                }
            }
        }
    }

    /// Sets the scroll region, each bound clamped to the last row.
    pub fn set_scroll_region(&mut self, top: usize, bottom: usize)
        requires
            old(self).wf(),
        ensures
            final(self).wf(),
            final(self).lines_view() == old(self).lines_view(),
            final(self).scrollback_view() == old(self).scrollback_view(),
            final(self).num_rows() == old(self).num_rows(),
            final(self).num_cols() == old(self).num_cols(),
            final(self).limit() == old(self).limit(),
            final(self).offset() == old(self).offset(),
            final(self).template() == old(self).template(),
            final(self).top() == min_nat(top as nat, last_row(old(self).num_rows())),
            final(self).bottom() == min_nat(bottom as nat, last_row(old(self).num_rows())),
    {
        let last = if self.rows > 0 { self.rows - 1 } else { 0 };
        self.scroll_top = if top < last { top } else { last };
        self.scroll_bottom = if bottom < last { bottom } else { last };
    }

    /// Makes the whole screen the scroll region.
    pub fn reset_scroll_region(&mut self)
        requires
            old(self).wf(),
        ensures
            final(self).wf(),
            final(self).lines_view() == old(self).lines_view(),
            final(self).scrollback_view() == old(self).scrollback_view(),
            final(self).num_rows() == old(self).num_rows(),
            final(self).num_cols() == old(self).num_cols(),
            final(self).limit() == old(self).limit(),
            final(self).offset() == old(self).offset(),
            final(self).template() == old(self).template(),
            final(self).top() == 0,
            final(self).bottom() == last_row(old(self).num_rows()),
    {
        self.scroll_top = 0;
        self.scroll_bottom = if self.rows > 0 { self.rows - 1 } else { 0 };
    }

    /// Appends `row` to the history and drops the oldest rows beyond the limit;
    /// with a zero limit the history is left alone.
    pub fn push_scrollback(&mut self, row: Row)
        requires
            old(self).wf(),
        ensures
            final(self).wf(),
            final(self).lines_view() == old(self).lines_view(),
            final(self).num_rows() == old(self).num_rows(),
            final(self).num_cols() == old(self).num_cols(),
            final(self).limit() == old(self).limit(),
            final(self).top() == old(self).top(),
            final(self).bottom() == old(self).bottom(),
            final(self).offset() == old(self).offset(),
            final(self).template() == old(self).template(),
            final(self).scrollback_view() == (if old(self).limit() > 0 {
                keep_last(old(self).scrollback_view().push(row@), old(self).limit())
            } else {
                old(self).scrollback_view()
            }),
    {
        if self.scrollback_limit > 0 {
            let ghost pushed = old(self).scrollback_view().push(row@);
            self.scrollback.push(row);
            assert(self.scrollback_view() =~= pushed);
            while self.scrollback.len() > self.scrollback_limit
                invariant
                    self.scrollback_limit == old(self).scrollback_limit,
                    self.scrollback_limit > 0,
                    pushed.len() > 0,
                    self.scrollback_view().len() == pushed.len() || self.scrollback_view().len() >= self.scrollback_limit,
                    self.scrollback_view().len() <= pushed.len(),
                    self.scrollback_view() == pushed.subrange(pushed.len() - self.scrollback_view().len(), pushed.len() as int),
                    self.lines == old(self).lines,
                    self.rows == old(self).rows,
                    self.cols == old(self).cols,
                    self.scroll_top == old(self).scroll_top,
                    self.scroll_bottom == old(self).scroll_bottom,
                    self.display_offset == old(self).display_offset,
                    self.template_cell == old(self).template_cell,
                decreases self.scrollback@.len(),
            {
                let ghost before = self.scrollback_view();
                self.scrollback.remove(0);
                assert(self.scrollback_view() =~= before.subrange(1, before.len() as int));
                assert(self.scrollback_view() =~= pushed.subrange(pushed.len() - self.scrollback_view().len(), pushed.len() as int));
            }
            assert(self.scrollback_view() =~= keep_last(pushed, old(self).limit()));
        }
    }


    /// The visible rows after scrolling the scroll region up one line.
    pub open spec fn scrolled_up_lines(&self) -> Seq<Seq<Cell>> {
        up_step(self.lines_view(), self.scrollback_view(), self.top() as int, self.bottom() as int,
            self.blank(), self.limit()).0
    }

    /// The history after scrolling the scroll region up one line.
    pub open spec fn scrolled_up_history(&self) -> Seq<Seq<Cell>> {
        up_step(self.lines_view(), self.scrollback_view(), self.top() as int, self.bottom() as int,
            self.blank(), self.limit()).1
    }

    /// Visible rows and history after scrolling the scroll region up `n` times.
    pub open spec fn scrolled_up_n(&self, n: nat) -> (Seq<Seq<Cell>>, Seq<Seq<Cell>>) {
        up_n(self.lines_view(), self.scrollback_view(), self.top() as int, self.bottom() as int,
            self.blank(), self.limit(), n)
    }

    /// Visible rows after scrolling the scroll region down `n` times.
    pub open spec fn scrolled_down_n(&self, n: nat) -> Seq<Seq<Cell>> {
        down_n(self.lines_view(), self.top() as int, self.bottom() as int, self.blank(), n)
    }

    /// `self` is `old` scrolled up one line, the view offset aside.
    pub open spec fn is_scrolled_up_from(&self, old: &Grid) -> bool {
        &&& self.wf()
        &&& self.num_rows() == old.num_rows()
        &&& self.num_cols() == old.num_cols()
        &&& self.limit() == old.limit()
        &&& self.top() == old.top()
        &&& self.bottom() == old.bottom()
        &&& self.template() == old.template()
        &&& self.lines_view() == old.scrolled_up_lines()
        &&& self.scrollback_view() == old.scrolled_up_history()
    }

    /// Scrolls the scroll region up one line and returns the line that left it, if the region
    /// holds more than one line. When the region starts at the top row, that line also goes to
    /// the history.
    pub fn scroll_up(&mut self) -> (r: Option<Row>)
        requires
            old(self).wf(),
        ensures
            r is Some <==> old(self).top() < old(self).bottom(),
            r matches Some(x) ==> x@ == old(self).lines_view()[old(self).top() as int],
            final(self).wf(),
            final(self).num_rows() == old(self).num_rows(),
            final(self).num_cols() == old(self).num_cols(),
            final(self).limit() == old(self).limit(),
            final(self).top() == old(self).top(),
            final(self).bottom() == old(self).bottom(),
            final(self).offset() == old(self).offset(),
            final(self).template() == old(self).template(),
            final(self).lines_view() == old(self).scrolled_up_lines(),
            final(self).scrollback_view() == old(self).scrolled_up_history(),
    {
        let top = self.scroll_top;
        let bottom = self.scroll_bottom;
        if top >= bottom || top >= self.rows {
            return None;
        }
        let ghost l = old(self).lines_view();
        let removed = self.lines.remove(top);
        let fresh = new_row(self.cols, &self.template_cell);
        self.lines.insert(bottom, fresh);
        proof {
            assert(self.lines_view() =~= shifted_up(l, top as int, bottom as int, old(self).blank()));
            assert forall|i: int| 0 <= i < self.lines@.len() implies #[trigger] self.lines@[i]@.len() == self.cols by {
                assert(self.lines_view()[i] == self.lines@[i]@);
            }
            assert(removed@ == l[top as int]);
        }
        if top == 0 {
            self.push_scrollback(copy_row(&removed));
        }
        Some(removed)
    }

    /// Scrolls the scroll region down one line; the bottom line of the region is discarded.
    pub fn scroll_down(&mut self)
        requires
            old(self).wf(),
        ensures
            final(self).wf(),
            final(self).same_but_lines(old(self)),
            old(self).top() < old(self).bottom() ==> final(self).lines_view() == shifted_down(
                old(self).lines_view(), old(self).top() as int, old(self).bottom() as int, old(self).blank()),
            old(self).top() >= old(self).bottom() ==> final(self).lines_view() == old(self).lines_view(),
    {
        let top = self.scroll_top;
        let bottom = self.scroll_bottom;
        if top >= bottom || bottom >= self.rows {
            return;
        }
        let ghost l = old(self).lines_view();
        let _discarded = self.lines.remove(bottom);
        let fresh = new_row(self.cols, &self.template_cell);
        self.lines.insert(top, fresh);
        proof {
            assert(self.lines_view() =~= shifted_down(l, top as int, bottom as int, old(self).blank()));
            assert forall|i: int| 0 <= i < self.lines@.len() implies #[trigger] self.lines@[i]@.len() == self.cols by {
                assert(self.lines_view()[i] == self.lines@[i]@);
            }
        }
    }

    /// The history after resizing to `new_rows` x `new_cols`: rows cut from the bottom join
    /// it, last row first, and it keeps its last `limit` rows.
    pub open spec fn resized_history(&self, new_rows: usize, new_cols: usize) -> Seq<Seq<Cell>> {
        if new_rows < self.num_rows() {
            let cut = self.lines_view().subrange(new_rows as int, self.num_rows() as int)
                .map_values(|r: Seq<Cell>| resized_row(r, new_cols as nat, self.template()));
            keep_last(self.scrollback_view() + cut.reverse(), self.limit())
        } else {
            self.scrollback_view()
        }
    }

    /// Drops the oldest history rows beyond the limit.
    fn trim_history(&mut self)
        ensures
            final(self).scrollback_view() == keep_last(old(self).scrollback_view(), old(self).limit()),
            final(self).lines == old(self).lines,
            final(self).rows == old(self).rows,
            final(self).cols == old(self).cols,
            final(self).scrollback_limit == old(self).scrollback_limit,
            final(self).scroll_top == old(self).scroll_top,
            final(self).scroll_bottom == old(self).scroll_bottom,
            final(self).display_offset == old(self).display_offset,
            final(self).template_cell == old(self).template_cell,
    {
        let ghost h = old(self).scrollback_view();
        while self.scrollback.len() > self.scrollback_limit
            invariant
                self.scrollback_limit == old(self).scrollback_limit,
                self.scrollback_view().len() == h.len() || self.scrollback_view().len() >= self.scrollback_limit,
                self.scrollback_view().len() <= h.len(),
                self.scrollback_view() == h.subrange(h.len() - self.scrollback_view().len(), h.len() as int),
                self.lines == old(self).lines,
                self.rows == old(self).rows,
                self.cols == old(self).cols,
                self.scroll_top == old(self).scroll_top,
                self.scroll_bottom == old(self).scroll_bottom,
                self.display_offset == old(self).display_offset,
                self.template_cell == old(self).template_cell,
            decreases self.scrollback@.len(),
        {
            let ghost before = self.scrollback_view();
            self.scrollback.remove(0);
            assert(self.scrollback_view() =~= before.subrange(1, before.len() as int));
            assert(self.scrollback_view() =~= h.subrange(h.len() - self.scrollback_view().len(), h.len() as int));
        }
        assert(self.scrollback_view() =~= keep_last(h, old(self).limit()));
    }

    /// Changes the screen to `new_rows` x `new_cols`. Rows are cut or padded with blanks;
    /// rows removed from the bottom go to the history, last row first, and the history keeps
    /// no more than its limit.
    pub fn resize(&mut self, new_rows: usize, new_cols: usize)
        requires
            old(self).wf(),
        ensures
            final(self).wf(),
            final(self).num_rows() == new_rows,
            final(self).num_cols() == new_cols,
            final(self).limit() == old(self).limit(),
            final(self).top() == old(self).top(),
            final(self).template() == old(self).template(),
            ({
                let l1 = old(self).lines_view().map_values(|r: Seq<Cell>| resized_row(r, new_cols as nat, old(self).template()));
                &&& final(self).lines_view() == (if new_rows >= old(self).num_rows() {
                        l1 + Seq::new((new_rows - old(self).num_rows()) as nat, |i: int| blank_row(new_cols as nat, old(self).template()))
                    } else {
                        l1.subrange(0, new_rows as int)
                    })
            }),
            final(self).scrollback_view() == old(self).resized_history(new_rows, new_cols),
            final(self).bottom() == min_nat(old(self).bottom(), last_row(new_rows as nat)),
            final(self).offset() == min_nat(old(self).offset(), final(self).scrollback_view().len()),
    {
        let ghost t = self.template_cell;
        let ghost l0 = old(self).lines_view();
        let ghost l1 = l0.map_values(|r: Seq<Cell>| resized_row(r, new_cols as nat, t));
        let n = self.lines.len();
        let mut i: usize = 0;
        while i < n
            invariant
                n == self.lines@.len(),
                n == self.rows,
                i <= n,
                self.template_cell == t,
                l0 == old(self).lines_view(),
                l0.len() == n,
                l1 == l0.map_values(|r: Seq<Cell>| resized_row(r, new_cols as nat, t)),
                forall|j: int| 0 <= j < i ==> #[trigger] self.lines@[j]@ == l1[j],
                forall|j: int| i <= j < n ==> #[trigger] self.lines@[j]@ == l0[j],
                self.scrollback == old(self).scrollback,
                self.scrollback_limit == old(self).scrollback_limit,
                self.scroll_top == old(self).scroll_top,
                self.scroll_bottom == old(self).scroll_bottom,
                self.display_offset == old(self).display_offset,
            decreases n - i,
        {
            fit_row(&mut self.lines[i], new_cols, self.template_cell);
            i = i + 1;
        }
        self.cols = new_cols;
        assert(rows_of(self.lines@) =~= l1);
        let ghost sb0 = self.scrollback_view();
        if new_rows > n {
            let mut k = n;
            while k < new_rows
                invariant
                    n <= k <= new_rows,
                    self.cols == new_cols,
                    self.template_cell == t,
                    self.lines@.len() == k,
                    rows_of(self.lines@) == l1 + Seq::new((k - n) as nat, |i: int| blank_row(new_cols as nat, t)),
                    self.scrollback == old(self).scrollback,
                    self.scrollback_limit == old(self).scrollback_limit,
                    self.scroll_top == old(self).scroll_top,
                    self.scroll_bottom == old(self).scroll_bottom,
                    self.display_offset == old(self).display_offset,
                decreases new_rows - k,
            {
                let fresh = new_row(new_cols, &self.template_cell);
                let ghost before = self.lines@;
                self.lines.push(fresh);
                assert(rows_of(self.lines@) =~= rows_of(before).push(fresh@));
                k = k + 1;
                assert(rows_of(self.lines@) =~= l1 + Seq::new((k - n) as nat, |i: int| blank_row(new_cols as nat, t)));
            }
        } else {
            while self.lines.len() > new_rows
                invariant
                    new_rows <= self.lines@.len() <= n,
                    l1.len() == n,
                    rows_of(self.lines@) == l1.subrange(0, self.lines@.len() as int),
                    self.scrollback_limit == old(self).scrollback_limit,
                    self.scrollback_view() == (if self.scrollback_limit > 0 {
                        sb0 + l1.subrange(self.lines@.len() as int, n as int).reverse()
                    } else {
                        sb0
                    }),
                    self.cols == new_cols,
                    self.template_cell == t,
                    self.scroll_top == old(self).scroll_top,
                    self.scroll_bottom == old(self).scroll_bottom,
                    self.display_offset == old(self).display_offset,
                decreases self.lines@.len(),
            {
                let ghost before_lines = self.lines@;
                let ghost before_sb = self.scrollback@;
                let ghost before = self.lines@.len();
                let removed = self.lines.pop().unwrap();
                assert(before_lines == self.lines@.push(removed));
                assert(rows_of(before_lines)[before - 1] == before_lines[before - 1]@);
                assert(l1.subrange(0, before as int)[before - 1] == l1[before - 1]);
                assert(removed@ == l1[before - 1]);
                if self.scrollback_limit > 0 {
                    self.scrollback.push(removed);
                    assert(rows_of(self.scrollback@) =~= rows_of(before_sb).push(removed@));
                }
                assert(rows_of(self.lines@) =~= rows_of(before_lines).subrange(0, self.lines@.len() as int));
                assert(rows_of(self.lines@) =~= l1.subrange(0, self.lines@.len() as int));
                assert(l1.subrange(self.lines@.len() as int, n as int).reverse() =~= l1.subrange(before as int, n as int).reverse().push(l1[before - 1]));
                assert(self.scrollback_view() =~= (if self.scrollback_limit > 0 {
                    sb0 + l1.subrange(self.lines@.len() as int, n as int).reverse()
                } else {
                    sb0
                }));
            }
            assert(l1.subrange(0, new_rows as int) == rows_of(self.lines@));
            self.trim_history();
            assert(self.scrollback_view().len() <= self.scrollback_limit);
            proof {
                let cut = l0.subrange(new_rows as int, n as int)
                    .map_values(|r: Seq<Cell>| resized_row(r, new_cols as nat, t));
                assert(cut =~= l1.subrange(new_rows as int, n as int));
                if new_rows < n {
                    if self.scrollback_limit == 0 {
                        assert(sb0.len() == 0);
                        assert(keep_last(sb0 + cut.reverse(), 0) =~= Seq::<Seq<Cell>>::empty());
                        assert(keep_last(sb0, 0) =~= Seq::<Seq<Cell>>::empty());
                    }
                    assert(self.scrollback_view() == old(self).resized_history(new_rows, new_cols));
                } else {
                    assert(sb0.len() <= self.scrollback_limit);
                    assert(self.scrollback_view() == keep_last(sb0, self.scrollback_limit as nat));
                    assert(self.scrollback_view() == sb0);
                }
            }
        }
        self.rows = new_rows;
        let last = if new_rows > 0 { new_rows - 1 } else { 0 };
        if self.scroll_bottom > last {
            self.scroll_bottom = last;
        }
        if self.display_offset > self.scrollback.len() {
            self.display_offset = self.scrollback.len();
        }
        proof {
            assert forall|j: int| 0 <= j < self.lines@.len() implies #[trigger] self.lines@[j]@.len() == self.cols by {
                assert(rows_of(self.lines@)[j] == self.lines@[j]@);
                if j < n {
                    assert(l1[j] == resized_row(l0[j], new_cols as nat, t));
                }
            }
        }
    }

    /// Visible rows after blanking row `row` (if on screen).
    pub open spec fn row_cleared(&self, row: usize) -> Seq<Seq<Cell>> {
        if row < self.num_rows() {
            self.lines_view().update(row as int, self.blank())
        } else {
            self.lines_view()
        }
    }

    /// Visible rows after blanking row `row` from column `col` to its end.
    pub open spec fn right_cleared(&self, row: usize, col: usize) -> Seq<Seq<Cell>> {
        if row < self.num_rows() {
            self.lines_view().update(row as int, blanked(self.lines_view()[row as int],
                col as int, self.num_cols() as int, self.template()))
        } else {
            self.lines_view()
        }
    }

    /// Visible rows after blanking row `row` from its start through column `col` (or its end).
    pub open spec fn left_cleared(&self, row: usize, col: usize) -> Seq<Seq<Cell>> {
        if row < self.num_rows() {
            self.lines_view().update(row as int, blanked(self.lines_view()[row as int],
                0, (min_nat(col as nat, (self.num_cols() - 1) as nat) + 1) as int, self.template()))
        } else {
            self.lines_view()
        }
    }

    /// Visible rows after blanking all of them.
    pub open spec fn all_cleared(&self) -> Seq<Seq<Cell>> {
        Seq::new(self.num_rows(), |i: int| self.blank())
    }

    /// Visible rows after blanking row `row` from column `col` on and all rows below.
    pub open spec fn below_cleared(&self, row: usize, col: usize) -> Seq<Seq<Cell>> {
        Seq::new(self.num_rows(), |i: int|
            if i == row {
                blanked(self.lines_view()[i], col as int, self.num_cols() as int, self.template())
            } else if i > row {
                self.blank()
            } else {
                self.lines_view()[i]
            })
    }

    /// Visible rows after blanking all rows above `row` and row `row` through column `col`.
    pub open spec fn above_cleared(&self, row: usize, col: usize) -> Seq<Seq<Cell>> {
        Seq::new(self.num_rows(), |i: int|
            if i < row {
                self.blank()
            } else if i == row {
                blanked(self.lines_view()[i], 0, (min_nat(col as nat, (self.num_cols() - 1) as nat) + 1) as int, self.template())
            } else {
                self.lines_view()[i]
            })
    }


    /// Blanks visible row `row`; rows outside the screen are ignored.
    pub fn clear_row(&mut self, row: usize)
        requires
            old(self).wf(),
        ensures
            final(self).wf(),
            final(self).same_but_lines(old(self)),
            final(self).lines_view() == old(self).row_cleared(row),
    {
        if row < self.rows {
            let fresh = new_row(self.cols, &self.template_cell);
            self.lines.set(row, fresh);
            proof {
                assert(rows_of(self.lines@) =~= old(self).lines_view().update(row as int, old(self).blank()));
                assert forall|j: int| 0 <= j < self.lines@.len() implies #[trigger] self.lines@[j]@.len() == self.cols by {
                    assert(rows_of(self.lines@)[j] == self.lines@[j]@);
                    assert(rows_of(old(self).lines@)[j] == old(self).lines@[j]@);
                }
            }
        }
    }

    /// Blanks row `row` from column `col` to the end of the line.
    pub fn clear_right(&mut self, row: usize, col: usize)
        requires
            old(self).wf(),
            row < old(self).num_rows() ==> col <= old(self).num_cols(),
        ensures
            final(self).wf(),
            final(self).same_but_lines(old(self)),
            final(self).lines_view() == old(self).right_cleared(row, col),
    {
        if row < self.lines.len() {
            proof { self.lemma_wf(); }
            let ghost r0 = self.lines@[row as int]@;
            let ghost others = self.lines@;
            let n = self.lines[row].len();
            let mut c = col;
            while c < n
                invariant
                    col <= c <= n,
                    n == self.cols,
                    row < self.lines@.len(),
                    self.lines@.len() == others.len(),
                    r0.len() == n,
                    self.lines@[row as int]@ == blanked(r0, col as int, c as int, self.template_cell),
                    forall|j: int| 0 <= j < others.len() && j != row ==> #[trigger] self.lines@[j] == others[j],
                    self.template_cell == old(self).template_cell,
                    self.rows == old(self).rows,
                    self.cols == old(self).cols,
                    self.scrollback == old(self).scrollback,
                    self.scrollback_limit == old(self).scrollback_limit,
                    self.scroll_top == old(self).scroll_top,
                    self.scroll_bottom == old(self).scroll_bottom,
                    self.display_offset == old(self).display_offset,
                decreases n - c,
            {
                self.lines[row].set(c, self.template_cell);
                c = c + 1;
                assert(self.lines@[row as int]@ =~= blanked(r0, col as int, c as int, self.template_cell));
            }
            proof {
                assert(rows_of(self.lines@) =~= old(self).lines_view().update(row as int, blanked(r0, col as int, n as int, self.template_cell)));
                assert forall|j: int| 0 <= j < self.lines@.len() implies #[trigger] self.lines@[j]@.len() == self.cols by {
                    if j != row {
                        assert(self.lines@[j] == others[j]);
                    }
                }
            }
        }
    }

    /// Blanks row `row` from its first column through column `col` (or the last column).
    pub fn clear_left(&mut self, row: usize, col: usize)
        requires
            old(self).wf(),
            row < old(self).num_rows() ==> old(self).num_cols() > 0,
        ensures
            final(self).wf(),
            final(self).same_but_lines(old(self)),
            final(self).lines_view() == old(self).left_cleared(row, col),
    {
        if row < self.lines.len() {
            proof { self.lemma_wf(); }
            let ghost r0 = self.lines@[row as int]@;
            let ghost others = self.lines@;
            let n = self.lines[row].len();
            let end = if col < n - 1 { col } else { n - 1 };
            let mut c: usize = 0;
            while c <= end
                invariant
                    c <= end + 1,
                    end < n,
                    n == self.cols,
                    row < self.lines@.len(),
                    self.lines@.len() == others.len(),
                    r0.len() == n,
                    self.lines@[row as int]@ == blanked(r0, 0, c as int, self.template_cell),
                    forall|j: int| 0 <= j < others.len() && j != row ==> #[trigger] self.lines@[j] == others[j],
                    self.template_cell == old(self).template_cell,
                    self.rows == old(self).rows,
                    self.cols == old(self).cols,
                    self.scrollback == old(self).scrollback,
                    self.scrollback_limit == old(self).scrollback_limit,
                    self.scroll_top == old(self).scroll_top,
                    self.scroll_bottom == old(self).scroll_bottom,
                    self.display_offset == old(self).display_offset,
                decreases end + 1 - c,
            {
                self.lines[row].set(c, self.template_cell);
                c = c + 1;
                assert(self.lines@[row as int]@ =~= blanked(r0, 0, c as int, self.template_cell));
            }
            proof {
                assert(rows_of(self.lines@) =~= old(self).lines_view().update(row as int, blanked(r0, 0, end + 1, self.template_cell)));
                assert forall|j: int| 0 <= j < self.lines@.len() implies #[trigger] self.lines@[j]@.len() == self.cols by {
                    if j != row {
                        assert(self.lines@[j] == others[j]);
                    }
                }
            }
        }
    }

    /// Blanks every visible row.
    pub fn clear_all(&mut self)
        requires
            old(self).wf(),
        ensures
            final(self).wf(),
            final(self).same_but_lines(old(self)),
            final(self).lines_view() == old(self).all_cleared(),
    {
        proof { old(self).lemma_wf(); }
        let mut i: usize = 0;
        while i < self.rows
            invariant
                i <= self.rows,
                old(self).lines_view().len() == old(self).num_rows(),
                self.wf(),
                self.same_but_lines(old(self)),
                self.lines_view() == Seq::new(i as nat, |k: int| old(self).blank())
                    + old(self).lines_view().subrange(i as int, old(self).num_rows() as int),
            decreases self.rows - i,
        {
            self.clear_row(i);
            proof { self.lemma_wf(); }
            i = i + 1;
            assert(self.lines_view() =~= Seq::new(i as nat, |k: int| old(self).blank())
                + old(self).lines_view().subrange(i as int, old(self).num_rows() as int));
        }
        assert(self.lines_view() =~= old(self).all_cleared());
    }

    /// Blanks row `row` from column `col` on and every row below it.
    pub fn clear_below(&mut self, row: usize, col: usize)
        requires
            old(self).wf(),
            row < usize::MAX,
            row < old(self).num_rows() ==> col <= old(self).num_cols(),
        ensures
            final(self).wf(),
            final(self).same_but_lines(old(self)),
            final(self).lines_view() == old(self).below_cleared(row, col),
    {
        proof { old(self).lemma_wf(); }
        self.clear_right(row, col);
        let ghost mid = self.lines_view();
        let mut r = row + 1;
        while r < self.rows
            invariant
                row + 1 <= r,
                r <= self.rows || self.rows <= row + 1,
                self.wf(),
                self.same_but_lines(old(self)),
                mid.len() == old(self).num_rows(),
                self.lines_view() == Seq::new(old(self).num_rows(), |i: int|
                    if row < i < r { old(self).blank() } else { mid[i] }),
            decreases self.rows - r,
        {
            self.clear_row(r);
            proof { self.lemma_wf(); }
            r = r + 1;
            assert(self.lines_view() =~= Seq::new(old(self).num_rows(), |i: int|
                if row < i < r { old(self).blank() } else { mid[i] }));
        }
        proof { self.lemma_wf(); }
        assert(self.lines_view() =~= Seq::new(old(self).num_rows(), |i: int|
            if i == row {
                blanked(old(self).lines_view()[i], col as int, old(self).num_cols() as int, old(self).template())
            } else if i > row {
                old(self).blank()
            } else {
                old(self).lines_view()[i]
            }));
    }

    /// Blanks every row above `row` and row `row` through column `col`.
    pub fn clear_above(&mut self, row: usize, col: usize)
        requires
            old(self).wf(),
            row < old(self).num_rows() ==> old(self).num_cols() > 0,
        ensures
            final(self).wf(),
            final(self).same_but_lines(old(self)),
            final(self).lines_view() == old(self).above_cleared(row, col),
    {
        proof { old(self).lemma_wf(); }
        let mut r: usize = 0;
        while r < row
            invariant
                r <= row,
                self.wf(),
                self.same_but_lines(old(self)),
                old(self).lines_view().len() == old(self).num_rows(),
                self.lines_view() == Seq::new(old(self).num_rows(), |i: int|
                    if i < r { old(self).blank() } else { old(self).lines_view()[i] }),
            decreases row - r,
        {
            self.clear_row(r);
            proof { self.lemma_wf(); }
            r = r + 1;
            assert(self.lines_view() =~= Seq::new(old(self).num_rows(), |i: int|
                if i < r { old(self).blank() } else { old(self).lines_view()[i] }));
        }
        self.clear_left(row, col);
        proof { self.lemma_wf(); }
        assert(self.lines_view() =~= Seq::new(old(self).num_rows(), |i: int|
            if i < row {
                old(self).blank()
            } else if i == row {
                blanked(old(self).lines_view()[i], 0, (min_nat(col as nat, (old(self).num_cols() - 1) as nat) + 1) as int, old(self).template())
            } else {
                old(self).lines_view()[i]
            }));
    }

    /// Drops the whole history and returns the view to the bottom.
    pub fn clear_scrollback(&mut self)
        requires
            old(self).wf(),
        ensures
            final(self).wf(),
            final(self).lines_view() == old(self).lines_view(),
            final(self).scrollback_view() == Seq::<Seq<Cell>>::empty(),
            final(self).offset() == 0,
            final(self).num_rows() == old(self).num_rows(),
            final(self).num_cols() == old(self).num_cols(),
            final(self).limit() == old(self).limit(),
            final(self).top() == old(self).top(),
            final(self).bottom() == old(self).bottom(),
            final(self).template() == old(self).template(),
    {
        self.scrollback.clear();
        self.display_offset = 0;
        assert(self.scrollback_view() =~= Seq::<Seq<Cell>>::empty());
    }

    /// How many history rows the view is scrolled back (0 = live output).
    pub fn display_offset(&self) -> (n: usize)
        ensures
            n == self.offset(),
    {
        self.display_offset
    }

    /// Every field but the view offset is the same in both grids.
    pub open spec fn same_but_offset(&self, other: &Grid) -> bool {
        &&& self.lines_view() == other.lines_view()
        &&& self.num_rows() == other.num_rows()
        &&& self.num_cols() == other.num_cols()
        &&& self.scrollback_view() == other.scrollback_view()
        &&& self.limit() == other.limit()
        &&& self.top() == other.top()
        &&& self.bottom() == other.bottom()
        &&& self.template() == other.template()
    }

    /// Scrolls the view `lines` rows back into the history, stopping at its start.
    pub fn scroll_display_up(&mut self, lines: usize)
        requires
            old(self).wf(),
            old(self).offset() + lines <= usize::MAX,
        ensures
            final(self).wf(),
            final(self).same_but_offset(old(self)),
            final(self).offset() == min_nat((old(self).offset() + lines) as nat, old(self).scrollback_view().len()),
    {
        let max_offset = self.scrollback.len();
        if lines >= max_offset || self.display_offset >= max_offset - lines {
            self.display_offset = max_offset;
        } else {
            self.display_offset = self.display_offset + lines;
        }
    }

    /// Scrolls the view `lines` rows towards the live output, stopping there.
    pub fn scroll_display_down(&mut self, lines: usize)
        requires
            old(self).wf(),
        ensures
            final(self).wf(),
            final(self).same_but_offset(old(self)),
            final(self).offset() == (if old(self).offset() >= lines { (old(self).offset() - lines) as nat } else { 0 }),
    {
        self.display_offset = if self.display_offset >= lines { self.display_offset - lines } else { 0 };
    }

    /// Returns the view to the live output.
    pub fn reset_display_offset(&mut self)
        requires
            old(self).wf(),
        ensures
            final(self).wf(),
            final(self).same_but_offset(old(self)),
            final(self).offset() == 0,
    {
        self.display_offset = 0;
    }

    /// Whether the view is scrolled back into the history.
    pub fn is_scrolled(&self) -> (b: bool)
        ensures
            b == (self.offset() > 0),
    {
        self.display_offset > 0
    }

    /// The visible rows.
    pub fn lines(&self) -> (s: &[Row])
        ensures
            rows_of(s@) == self.lines_view(),
    {
        self.lines.as_slice()
    }

    /// Returns the view to the live output; same as `reset_display_offset`.
    pub fn scroll_up_reset_view(&mut self)
        requires
            old(self).wf(),
        ensures
            final(self).wf(),
            final(self).same_but_offset(old(self)),
            final(self).offset() == 0,
    {
        if self.display_offset > 0 {
            self.display_offset = 0;
        }
    }

    /// All rows, history first.
    pub open spec fn all_rows(&self) -> Seq<Seq<Cell>> {
        self.scrollback_view() + self.lines_view()
    }

    /// Index one past the last displayed row within `all_rows`.
    pub open spec fn view_end(&self) -> int {
        self.all_rows().len() - min_nat(self.offset(), self.scrollback_view().len())
    }

    /// Index of the first displayed row within `all_rows`.
    pub open spec fn view_start(&self) -> int {
        let end = self.view_end();
        let count = min_nat(self.num_rows(), self.all_rows().len());
        if end >= count { end - count } else { 0 }
    }

    /// The rows on display: a window of screen height over history and screen that ends
    /// `offset` rows before the live bottom.
    pub open spec fn displayed(&self) -> Seq<Seq<Cell>> {
        self.all_rows().subrange(self.view_start(), self.view_end())
    }

    /// The rows on display, top to bottom.
    pub fn visible_lines(&self) -> (v: Vec<&Row>)
        requires
            self.wf(),
            self.scrollback_view().len() + self.num_rows() <= usize::MAX,
        ensures
            v@.len() == self.num_rows(),
            self.displayed().len() == self.num_rows(),
            forall|i: int| 0 <= i < v@.len() ==> (#[trigger] v@[i])@ == self.displayed()[i],
    {
        proof { self.lemma_wf(); }
        let mut result: Vec<&Row> = Vec::new();
        let sb_len = self.scrollback.len();
        let total_lines = sb_len + self.lines.len();
        let visible_count = if self.rows < total_lines { self.rows } else { total_lines };
        let effective_offset = if self.display_offset < sb_len { self.display_offset } else { sb_len };
        let end = total_lines - effective_offset;
        let start = if end >= visible_count { end - visible_count } else { 0 };
        let mut index = start;
        while index < end
            invariant
                start <= index <= end,
                end <= total_lines,
                total_lines == sb_len + self.lines@.len(),
                sb_len == self.scrollback@.len(),
                start == self.view_start(),
                end == self.view_end(),
                result@.len() == index - start,
                forall|i: int| 0 <= i < result@.len() ==> (#[trigger] result@[i])@ == self.all_rows()[start + i],
            decreases end - index,
        {
            if index < sb_len {
                result.push(&self.scrollback[index]);
                assert(self.all_rows()[index as int] == self.scrollback@[index as int]@);
            } else {
                result.push(&self.lines[index - sb_len]);
                assert(self.all_rows()[index as int] == self.lines@[index - sb_len]@);
            }
            index = index + 1;
        }
        result
    }

    /// Mutable access to visible row `row`, if it exists. Whatever the caller writes through
    /// the returned reference becomes that row; every other field stays as it was.
    pub fn row_mut(&mut self, row: usize) -> (r: Option<&mut Row>)
        ensures
            r is Some <==> row < old(self).lines_view().len(),
            r matches Some(x) ==> {
                &&& x@ == old(self).lines_view()[row as int]
                &&& final(self).lines_view() == old(self).lines_view().update(row as int, final(x)@)
                &&& final(self).same_but_lines(old(self))
            },
            r is None ==> *final(self) == *old(self),
    {
        if row < self.lines.len() {
            let ghost l0 = self.lines@;
            let r = &mut self.lines[row];
            assert(rows_of(l0.update(row as int, *final(r))) =~= rows_of(l0).update(row as int, final(r)@));
            Some(r)
        } else {
            None
        }
    }

    /// Mutable access to the cell at (`row`, `col`), if it exists. Whatever the caller writes
    /// through the returned reference becomes that cell; every other cell and field stays.
    pub fn cell_mut(&mut self, row: usize, col: usize) -> (c: Option<&mut Cell>)
        ensures
            c is Some <==> (row < old(self).lines_view().len() && col < old(self).lines_view()[row as int].len()),
            c matches Some(x) ==> {
                &&& *x == old(self).lines_view()[row as int][col as int]
                &&& final(self).lines_view() == old(self).lines_view().update(row as int,
                    old(self).lines_view()[row as int].update(col as int, *final(x)))
                &&& final(self).same_but_lines(old(self))
            },
            c is None ==> *final(self) == *old(self),
    {
        if row < self.lines.len() {
            if col < self.lines[row].len() {
                let ghost l0 = self.lines@;
                let c = &mut self.lines[row][col];
                return Some(c);
            }
        }
        None
    }
}

} // verus!
