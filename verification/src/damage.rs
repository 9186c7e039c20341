use vstd::prelude::*;

verus! {

/// Records which grid rows must be redrawn.
#[derive(Debug)]
pub struct DamageTracker {
    dirty_rows: Vec<bool>,
    full_redraw: bool,
    num_rows: usize,
}

/// The indices `i < n` for which `pred(i)` holds, in increasing order.
pub open spec fn indices_where(n: nat, pred: spec_fn(int) -> bool) -> Seq<usize>
    decreases n,
{
    if n == 0 {
        Seq::empty()
    } else {
        let rest = indices_where((n - 1) as nat, pred);
        if pred(n - 1) {
            rest.push((n - 1) as usize)
        } else {
            rest
        }
    }
}

/// The list `indices_where(n, pred)` is strictly increasing and holds exactly the indices
/// below `n` at which `pred` holds.
pub proof fn lemma_indices_where(n: nat, pred: spec_fn(int) -> bool)
    requires
        n <= usize::MAX + 1,
    ensures
        forall|j: int| 0 <= j < indices_where(n, pred).len() ==>
            (#[trigger] indices_where(n, pred)[j]) < n && pred(indices_where(n, pred)[j] as int),
        forall|k: int| 0 <= k < n && #[trigger] pred(k) ==> indices_where(n, pred).contains(k as usize),
        forall|a: int, b: int| 0 <= a < b < indices_where(n, pred).len() ==>
            #[trigger] indices_where(n, pred)[a] < #[trigger] indices_where(n, pred)[b],
    decreases n,
{
    if n > 0 {
        let m = (n - 1) as nat;
        lemma_indices_where(m, pred);
        let rest = indices_where(m, pred);
        if pred(n - 1) {
            let r = rest.push((n - 1) as usize);
            assert(r[rest.len() as int] == (n - 1) as usize);
            assert forall|k: int| 0 <= k < n && #[trigger] pred(k) implies r.contains(k as usize) by {
                if k < m {
                    let j = choose|j: int| 0 <= j < rest.len() && rest[j] == k as usize;
                    assert(r[j] == k as usize);
                } else {
                    assert(r[rest.len() as int] == k as usize);
                }
            }
        }
    }
}

impl DamageTracker {
    /// One flag per row.
    pub closed spec fn wf(&self) -> bool {
        self.dirty_rows@.len() == self.num_rows
    }

    /// Consequences of `wf` that callers may use: one flag for each tracked row.
    pub proof fn lemma_wf(&self)
        requires
            self.wf(),
        ensures
            self.rows_view().len() == self.len(),
            self.len() <= usize::MAX,
    {
    }

    /// The per-row dirty flags.
    pub closed spec fn rows_view(&self) -> Seq<bool> {
        self.dirty_rows@
    }

    /// Whether a full redraw was requested.
    pub closed spec fn full(&self) -> bool {
        self.full_redraw
    }

    /// Number of tracked rows.
    pub closed spec fn len(&self) -> nat {
        self.num_rows as nat
    }

    /// Whether row `row` is reported as damaged.
    pub open spec fn row_damaged(&self, row: int) -> bool {
        self.full() || (0 <= row < self.len() && self.rows_view()[row])
    }

    pub fn new(rows: usize) -> (d: DamageTracker)
        ensures
            d.wf(),
            d.len() == rows,
            d.rows_view() == Seq::new(rows as nat, |i: int| false),
            !d.full(),
    {
        let mut dirty_rows: Vec<bool> = Vec::new();
        let mut i: usize = 0;
        while i < rows
            invariant
                i <= rows,
                dirty_rows@ == Seq::new(i as nat, |j: int| false),
            decreases rows - i,
        {
            dirty_rows.push(false);
            i = i + 1;
        }
        DamageTracker { dirty_rows, full_redraw: false, num_rows: rows }
    }

    /// Marks one row dirty; rows past the end are ignored.
    pub fn mark_row(&mut self, row: usize)
        requires
            old(self).wf(),
        ensures
            final(self).wf(),
            final(self).len() == old(self).len(),
            final(self).full() == old(self).full(),
            final(self).rows_view() == (if row < old(self).len() {
                old(self).rows_view().update(row as int, true)
            } else {
                old(self).rows_view()
            }),
    {
        if row < self.num_rows {
            self.dirty_rows.set(row, true);
        }
    }

    /// Marks rows `start_row..=end_row` dirty, clipped to the tracked rows.
    pub fn mark_range(&mut self, start_row: usize, end_row: usize)
        requires
            old(self).wf(),
            old(self).len() > 0,
        ensures
            final(self).wf(),
            final(self).len() == old(self).len(),
            final(self).full() == old(self).full(),
            final(self).rows_view() == Seq::new(old(self).len(), |i: int|
                old(self).rows_view()[i] || (start_row <= i <= end_row)),
    {
        let last = if end_row < self.num_rows - 1 { end_row } else { self.num_rows - 1 };
        let mut row = start_row;
        let ghost old_rows = self.dirty_rows@;
        if start_row <= last {
            while row <= last
                invariant
                    start_row <= row <= last + 1,
                    last < self.num_rows,
                    self.dirty_rows@.len() == self.num_rows,
                    self.num_rows == old(self).num_rows,
                    self.full_redraw == old(self).full_redraw,
                    old_rows == old(self).dirty_rows@,
                    forall|i: int| 0 <= i < self.num_rows ==> #[trigger] self.dirty_rows@[i]
                        == (old_rows[i] || (start_row <= i < row)),
                decreases last + 1 - row,
            {
                self.dirty_rows.set(row, true);
                row = row + 1;
            }
        }
        assert(self.dirty_rows@ =~= Seq::new(old(self).len(), |i: int|
            old_rows[i] || (start_row <= i <= end_row)));
    }

    /// Requests a redraw of the whole screen.
    pub fn mark_full_redraw(&mut self)
        ensures
            final(self).full(),
            final(self).rows_view() == old(self).rows_view(),
            final(self).len() == old(self).len(),
            old(self).wf() ==> final(self).wf(),
    {
        self.full_redraw = true;
    }

    pub fn needs_full_redraw(&self) -> (b: bool)
        ensures
            b == self.full(),
    {
        self.full_redraw
    }

    /// The damaged rows in increasing order: every row under a full redraw, else the marked ones.
    pub fn dirty_rows(&self) -> (v: Vec<usize>)
        requires
            self.wf(),
        ensures
            v@ == indices_where(self.len(), |i: int| self.row_damaged(i)),
    {
        let mut v: Vec<usize> = Vec::new();
        let mut i: usize = 0;
        while i < self.num_rows
            invariant
                i <= self.num_rows,
                self.wf(),
                v@ == indices_where(i as nat, |j: int| self.row_damaged(j)),
            decreases self.num_rows - i,
        {
            if self.full_redraw || self.dirty_rows[i] {
                v.push(i);
            }
            i = i + 1;
        }
        v
    }

    /// Whether anything must be redrawn.
    pub fn is_dirty(&self) -> (b: bool)
        requires
            self.wf(),
        ensures
            b == (self.full() || exists|i: int| 0 <= i < self.len() && self.rows_view()[i]),
    {
        if self.full_redraw {
            return true;
        }
        let mut i: usize = 0;
        while i < self.dirty_rows.len()
            invariant
                i <= self.dirty_rows@.len(),
                self.wf(),
                !self.full(),
                forall|j: int| 0 <= j < i ==> !self.dirty_rows@[j],
            decreases self.dirty_rows@.len() - i,
        {
            if self.dirty_rows[i] {
                assert(self.rows_view()[i as int]);
                return true;
            }
            i = i + 1;
        }
        false
    }

    /// Forgets all damage after a frame was drawn.
    pub fn clear(&mut self)
        requires
            old(self).wf(),
        ensures
            final(self).wf(),
            final(self).len() == old(self).len(),
            !final(self).full(),
            final(self).rows_view() == Seq::new(old(self).len(), |i: int| false),
    {
        let mut i: usize = 0;
        while i < self.dirty_rows.len()
            invariant
                i <= self.dirty_rows@.len(),
                self.dirty_rows@.len() == old(self).dirty_rows@.len(),
                self.num_rows == old(self).num_rows,
                forall|j: int| 0 <= j < i ==> !self.dirty_rows@[j],
            decreases self.dirty_rows@.len() - i,
        {
            self.dirty_rows.set(i, false);
            i = i + 1;
        }
        self.full_redraw = false;
        assert(self.dirty_rows@ =~= Seq::new(old(self).len(), |i: int| false));
    }

    /// Tracks `rows` rows; new rows start dirty and a full redraw is requested.
    pub fn resize(&mut self, rows: usize)
        requires
            old(self).wf(),
        ensures
            final(self).wf(),
            final(self).len() == rows,
            final(self).full(),
            final(self).rows_view() == Seq::new(rows as nat, |i: int|
                if i < old(self).len() { old(self).rows_view()[i] } else { true }),
    {
        self.dirty_rows.resize(rows, true);
        self.num_rows = rows;
        self.full_redraw = true;
        assert(self.dirty_rows@ =~= Seq::new(rows as nat, |i: int|
            if i < old(self).len() { old(self).rows_view()[i] } else { true }));
    }
}

} // verus!
