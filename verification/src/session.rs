use vstd::prelude::*;
use crate::cell::Cell;
use crate::grid::Grid;
use crate::input::{MouseButton, MouseReportKind};
use crate::selection::{Selection, SelectionPos, pos_le, bounds_on, cell_unit, word_unit, line_unit,
    line_walk_advances, cell_bounds, word_bounds, line_bounds};
use crate::shortcuts::trim;
use crate::terminal::MouseTrackingMode;
use crate::text::{signed_digits, push_signed_digits};
use crate::encode::chars_of;

verus! {

/// How a drag grows the selection: by character, by word or by line.
#[derive(Debug, Clone, Copy, PartialEq, Eq, Structural)]
pub enum SelectionDragMode {
    Char,
    Word,
    Line,
}

/// The drag mode for a run of `click_count` clicks: two select words, three select lines.
pub open spec fn mode_for_clicks(click_count: u8) -> SelectionDragMode {
    if click_count == 2 {
        SelectionDragMode::Word
    } else if click_count == 3 {
        SelectionDragMode::Line
    } else {
        SelectionDragMode::Char
    }
}

/// The drag mode for a run of `click_count` clicks.
pub fn drag_mode_from_clicks(click_count: u8) -> (m: SelectionDragMode)
    ensures
        m == mode_for_clicks(click_count),
{
    match click_count {
        2 => SelectionDragMode::Word,
        3 => SelectionDragMode::Line,
        _ => SelectionDragMode::Char,
    }
}

/// The click count after a press: it grows (wrapping from three back to one) when the press
/// repeats the last one on the same cell in time, and starts again at one otherwise.
pub open spec fn counted_clicks(previous: u8, repeated: bool) -> u8 {
    if repeated {
        if previous >= 3 { 1 } else { (previous + 1) as u8 }
    } else {
        1
    }
}

/// The bounds a click at (`row`, `col`) selects on the displayed rows in drag mode `mode`.
pub open spec fn unit_bounds(grid: Grid, row: usize, col: usize, mode: SelectionDragMode) -> Option<(SelectionPos, SelectionPos)> {
    match mode {
        SelectionDragMode::Char => bounds_on(grid.displayed(), row, |line: Seq<Cell>| cell_unit(line, col)),
        SelectionDragMode::Word => bounds_on(grid.displayed(), row, |line: Seq<Cell>| word_unit(line, col)),
        SelectionDragMode::Line => bounds_on(grid.displayed(), row, |line: Seq<Cell>| line_unit(line)),
    }
}

/// What a grid must satisfy to look up bounds on row `row` in mode `mode`: line bounds walk
/// the row and need the walk to move forward.
pub open spec fn bounds_ok(grid: Grid, row: usize, mode: SelectionDragMode) -> bool {
    &&& grid.wf()
    &&& grid.scrollback_view().len() + grid.num_rows() <= usize::MAX
    &&& (mode == SelectionDragMode::Line && row < grid.num_rows() ==> line_walk_advances(grid.displayed()[row as int], 0))
}

/// The bounds a click at (`row`, `col`) selects in drag mode `mode`.
pub fn semantic_bounds(grid: &Grid, row: usize, col: usize, mode: SelectionDragMode) -> (r: Option<(SelectionPos, SelectionPos)>)
    requires
        bounds_ok(*grid, row, mode),
    ensures
        r == unit_bounds(*grid, row, col, mode),
{
    match mode {
        SelectionDragMode::Char => cell_bounds(grid, row, col),
        SelectionDragMode::Word => word_bounds(grid, row, col),
        SelectionDragMode::Line => line_bounds(grid, row),
    }
}

/// The endpoints of the selection spanning `a` and `b`, in reading order.
pub open spec fn ordered_span(a: SelectionPos, b: SelectionPos) -> (SelectionPos, SelectionPos) {
    if pos_le(a, b) { (a, b) } else { (b, a) }
}

/// The endpoints of the selection a drag to (`row`, `col`) makes from `anchor`: from the start
/// of the unit under the pointer to the end of the anchor when the pointer is before the
/// anchor, else from the start of the anchor to the end of that unit.
pub open spec fn drag_span(grid: Grid, anchor: (SelectionPos, SelectionPos), mode: SelectionDragMode, row: usize, col: usize)
    -> Option<(SelectionPos, SelectionPos)>
{
    match unit_bounds(grid, row, col, mode) {
        None => None,
        Some((current_start, current_end)) => Some(if !pos_le(anchor.0, current_start) {
            ordered_span(current_start, anchor.1)
        } else {
            ordered_span(anchor.0, current_end)
        }),
    }
}

/// The selection a drag to (`row`, `col`) makes from `anchor`.
pub fn build_selection_for_drag(
    grid: &Grid,
    anchor: (SelectionPos, SelectionPos),
    mode: SelectionDragMode,
    row: usize,
    col: usize,
) -> (r: Option<Selection>)
    requires
        bounds_ok(*grid, row, mode),
    ensures
        r is Some <==> drag_span(*grid, anchor, mode, row, col) is Some,
        r matches Some(s) ==> (s.spec_start(), s.spec_end()) == drag_span(*grid, anchor, mode, row, col)->0,
{
    let (anchor_start, anchor_end) = anchor;
    let (current_start, current_end) = match semantic_bounds(grid, row, col, mode) {
        Some(b) => b,
        None => return None,
    };
    if !anchor_start.precedes_or_equals(&current_start) {
        Some(Selection::new(current_start, anchor_end))
    } else {
        Some(Selection::new(anchor_start, current_end))
    }
}

/// A change the mouse makes to the terminal's selection.
#[derive(Debug, Clone, Copy)]
pub enum SelectionChange {
    /// Remove the selection.
    Clear,
    /// Replace the selection.
    Replace(Selection),
    /// Leave the selection as it is.
    Keep,
}

/// Selection by mouse in one tab: whether a drag is under way, where it started, the unit it
/// grows from, and the click run it belongs to.
#[derive(Debug, Clone, Copy)]
pub struct SelectionTracker {
    pub selecting: bool,
    pub start_cell: Option<(usize, usize)>,
    pub anchor: Option<(SelectionPos, SelectionPos)>,
    pub drag_mode: SelectionDragMode,
    pub last_click_cell: Option<(usize, usize)>,
    pub click_count: u8,
}

impl SelectionTracker {
    /// No selection under way and no clicks seen.
    pub fn new() -> (t: SelectionTracker)
        ensures
            !t.selecting,
            t.start_cell is None,
            t.anchor is None,
            t.drag_mode == SelectionDragMode::Char,
            t.last_click_cell is None,
            t.click_count == 0,
    {
        SelectionTracker {
            selecting: false,
            start_cell: None,
            anchor: None,
            drag_mode: SelectionDragMode::Char,
            last_click_cell: None,
            click_count: 0,
        }
    }

    /// The drag mode a left press at (`row`, `col`) gives, `in_time` telling whether it came
    /// soon enough after the last one.
    pub open spec fn press_mode(&self, row: usize, col: usize, in_time: bool) -> SelectionDragMode {
        mode_for_clicks(counted_clicks(self.click_count, self.last_click_cell == Some((row, col)) && in_time))
    }

    /// The drag mode a left press at (`row`, `col`) would give.
    pub fn mode_for_press(&self, row: usize, col: usize, in_time: bool) -> (m: SelectionDragMode)
        ensures
            m == self.press_mode(row, col, in_time),
    {
        let repeated = match self.last_click_cell {
            Some((r0, c0)) => r0 == row && c0 == col && in_time,
            None => false,
        };
        let count = if repeated {
            if self.click_count >= 3 { 1 } else { self.click_count + 1 }
        } else {
            1
        };
        drag_mode_from_clicks(count)
    }

    /// A left press at (`row`, `col`): counts the click run, starts a drag in the mode the run
    /// gives, and anchors it on the unit under the pointer. A single click clears the
    /// selection; a double or triple click selects the word or line.
    pub fn press(&mut self, grid: &Grid, row: usize, col: usize, in_time: bool) -> (r: SelectionChange)
        requires
            bounds_ok(*grid, row, old(self).press_mode(row, col, in_time)),
        ensures
            final(self).click_count == counted_clicks(old(self).click_count,
                old(self).last_click_cell == Some((row, col)) && in_time),
            final(self).drag_mode == old(self).press_mode(row, col, in_time),
            final(self).last_click_cell == Some((row, col)),
            final(self).selecting,
            final(self).start_cell == Some((row, col)),
            final(self).anchor == unit_bounds(*grid, row, col, final(self).drag_mode),
            final(self).drag_mode == SelectionDragMode::Char ==> r is Clear,
            final(self).drag_mode != SelectionDragMode::Char ==> match final(self).anchor {
                Some(a) => match drag_span(*grid, a, final(self).drag_mode, row, col) {
                    Some(span) => r matches SelectionChange::Replace(s) && (s.spec_start(), s.spec_end()) == span,
                    None => r is Keep,
                },
                None => r is Keep,
            },
    {
        let repeated = match self.last_click_cell {
            Some((r0, c0)) => r0 == row && c0 == col && in_time,
            None => false,
        };
        self.click_count = if repeated {
            if self.click_count >= 3 { 1 } else { self.click_count + 1 }
        } else {
            1
        };
        self.last_click_cell = Some((row, col));
        self.drag_mode = drag_mode_from_clicks(self.click_count);
        self.selecting = true;
        self.start_cell = Some((row, col));
        self.anchor = semantic_bounds(grid, row, col, self.drag_mode);
        if self.drag_mode == SelectionDragMode::Char {
            return SelectionChange::Clear;
        }
        match self.anchor {
            Some(anchor) => match build_selection_for_drag(grid, anchor, self.drag_mode, row, col) {
                Some(selection) => SelectionChange::Replace(selection),
                None => SelectionChange::Keep,
            },
            None => SelectionChange::Keep,
        }
    }

    /// The pointer moved to (`row`, `col`) during a drag: the position is kept inside the
    /// screen, the drag's start is recorded if it had none, and the selection is rebuilt from
    /// the anchor.
    pub fn drag(&mut self, grid: &Grid, row: usize, col: usize) -> (r: SelectionChange)
        requires
            bounds_ok(*grid, clamp_index(row, grid.num_rows()), old(self).drag_mode),
        ensures
            final(self).start_cell == (if old(self).start_cell is None {
                Some((clamp_index(row, grid.num_rows()), clamp_index(col, grid.num_cols())))
            } else {
                old(self).start_cell
            }),
            final(self).selecting == old(self).selecting,
            final(self).anchor == old(self).anchor,
            final(self).drag_mode == old(self).drag_mode,
            final(self).last_click_cell == old(self).last_click_cell,
            final(self).click_count == old(self).click_count,
            match old(self).anchor {
                Some(a) => match drag_span(*grid, a, old(self).drag_mode, clamp_index(row, grid.num_rows()),
                    clamp_index(col, grid.num_cols())) {
                    Some(span) => r matches SelectionChange::Replace(s) && (s.spec_start(), s.spec_end()) == span,
                    None => r is Keep,
                },
                None => r is Keep,
            },
    {
        let rows = grid.rows();
        let cols = grid.cols();
        let row = if rows == 0 { 0 } else if row < rows - 1 { row } else { rows - 1 };
        let col = if cols == 0 { 0 } else if col < cols - 1 { col } else { cols - 1 };
        if self.start_cell.is_none() {
            self.start_cell = Some((row, col));
        }
        match self.anchor {
            Some(anchor) => match build_selection_for_drag(grid, anchor, self.drag_mode, row, col) {
                Some(selection) => SelectionChange::Replace(selection),
                None => SelectionChange::Keep,
            },
            None => SelectionChange::Keep,
        }
    }

    /// The left button was released: the drag ends.
    pub fn release(&mut self)
        ensures
            !final(self).selecting,
            final(self).start_cell is None,
            final(self).anchor is None,
            final(self).drag_mode == old(self).drag_mode,
            final(self).last_click_cell == old(self).last_click_cell,
            final(self).click_count == old(self).click_count,
    {
        self.selecting = false;
        self.start_cell = None;
        self.anchor = None;
    }
}

/// `i` kept below `n` (0 when `n` is 0).
pub open spec fn clamp_index(i: usize, n: nat) -> usize {
    if n == 0 { 0 } else if i < n - 1 { i } else { (n - 1) as usize }
}

/// Whether pointer motion is reported in tracking mode `mode`: always with any-event tracking,
/// with button-event tracking only while a button is held.
pub open spec fn reports_motion(mode: MouseTrackingMode, button_held: bool) -> bool {
    match mode {
        MouseTrackingMode::Disabled | MouseTrackingMode::Normal => false,
        MouseTrackingMode::ButtonEvent => button_held,
        MouseTrackingMode::AnyEvent => true,
    }
}

/// What the application is told of the mouse in one tab: the button held, and the last cell
/// reported.
#[derive(Debug, Clone, Copy)]
pub struct MouseReportState {
    pub pressed_button: Option<MouseButton>,
    pub last_reported_cell: Option<(usize, usize)>,
}

impl MouseReportState {
    pub fn new() -> (s: MouseReportState)
        ensures
            s.pressed_button is None,
            s.last_reported_cell is None,
    {
        MouseReportState { pressed_button: None, last_reported_cell: None }
    }

    /// Whether motion to (`row`, `col`) is reported: the mode asks for it and the pointer has
    /// left the cell last reported.
    pub fn should_report_motion(&self, mode: MouseTrackingMode, row: usize, col: usize) -> (b: bool)
        ensures
            b == (reports_motion(mode, self.pressed_button is Some) && self.last_reported_cell != Some((row, col))),
    {
        let wanted = match mode {
            MouseTrackingMode::Disabled | MouseTrackingMode::Normal => false,
            MouseTrackingMode::ButtonEvent => self.pressed_button.is_some(),
            MouseTrackingMode::AnyEvent => true,
        };
        let moved = match self.last_reported_cell {
            Some((r0, c0)) => !(r0 == row && c0 == col),
            None => true,
        };
        wanted && moved
    }

    /// The button a release reports: the one held, else the one released.
    pub fn release_button(&self, button: MouseButton) -> (b: MouseButton)
        ensures
            b == (match self.pressed_button { Some(p) => p, None => button }),
    {
        match self.pressed_button {
            Some(p) => p,
            None => button,
        }
    }

    /// Records a report of `kind` at (`row`, `col`) made in tracking mode `mode`: a press holds
    /// its button and a release lets it go; the cell is remembered unless tracking is off.
    pub fn record(&mut self, kind: MouseReportKind, row: usize, col: usize, mode: MouseTrackingMode)
        ensures
            final(self).pressed_button == (match kind {
                MouseReportKind::Press(b) => Some(b),
                MouseReportKind::Release(_) => None,
                _ => old(self).pressed_button,
            }),
            final(self).last_reported_cell == (if mode == MouseTrackingMode::Disabled { None } else { Some((row, col)) }),
    {
        match kind {
            MouseReportKind::Press(button) => {
                self.pressed_button = Some(button);
            },
            MouseReportKind::Release(_) => {
                self.pressed_button = None;
            },
            _ => {},
        }
        self.last_reported_cell = Some((row, col));
        if mode == MouseTrackingMode::Disabled {
            self.last_reported_cell = None;
        }
    }

    /// Forgets the held button and the reported cell.
    pub fn reset(&mut self)
        ensures
            final(self).pressed_button is None,
            final(self).last_reported_cell is None,
    {
        self.pressed_button = None;
        self.last_reported_cell = None;
    }
}

/// Whether mouse events go to the application rather than to local selection: the terminal
/// has focus, the application tracks the mouse, and Shift is not held.
pub fn should_report_mouse(terminal_focused: bool, mode: MouseTrackingMode, shift_pressed: bool) -> (b: bool)
    ensures
        b == (terminal_focused && mode != MouseTrackingMode::Disabled && !shift_pressed),
{
    terminal_focused && mode != MouseTrackingMode::Disabled && !shift_pressed
}

/// The tab after `active` among `len`, wrapping to the first.
pub fn next_tab_index(active: usize, len: usize) -> (i: usize)
    requires
        len > 0,
        active < usize::MAX,
    ensures
        i == (active + 1) % (len as int),
{
    (active + 1) % len
}

/// The tab before `active` among `len`, wrapping to the last.
pub fn previous_tab_index(active: usize, len: usize) -> (i: usize)
    requires
        len > 0,
    ensures
        i == (if active == 0 { len - 1 } else { active - 1 }),
{
    if active == 0 { len - 1 } else { active - 1 }
}

/// The active tab once tab `index` of `len` (more than one) is closed: a tab after it moves
/// back one place, and a position past the new end goes to the last tab.
pub fn active_after_close(active: usize, index: usize, len: usize) -> (i: usize)
    requires
        index < len,
        len > 1,
    ensures
        i == (if active > index { active - 1 } else if active >= len - 1 { len - 2 } else { active as int }),
{
    let remaining = len - 1;
    if active > index {
        active - 1
    } else if active >= remaining {
        remaining - 1
    } else {
        active
    }
}

/// The line written to a tab when its shell exits.
pub open spec fn exit_message(code: i32) -> Seq<char> {
    "\r\n[SuperPower] shell exited with code "@ + signed_digits(code as int) + "\r\n"@
}

/// The line written to a tab when its shell exits with `code`.
pub fn shell_exit_message(code: i32) -> (s: String)
    ensures
        s@ == exit_message(code),
{
    let mut s = String::from_str("\r\n[SuperPower] shell exited with code ");
    push_signed_digits(&mut s, code as i64);
    s.append("\r\n");
    s
}

/// The tab title a terminal title gives: the title trimmed, unless that is empty or already the
/// tab's title.
pub open spec fn synced_title(current: Seq<char>, terminal_title: Seq<char>) -> Option<Seq<char>> {
    let t = trim(terminal_title);
    if t.len() == 0 || t == current { None } else { Some(t) }
}

/// The new title of a tab whose terminal set `terminal_title`, if it changes.
pub fn sync_tab_title(current: &str, terminal_title: &str) -> (r: Option<String>)
    ensures
        r is Some <==> synced_title(current@, terminal_title@) is Some,
        r matches Some(t) ==> t@ == synced_title(current@, terminal_title@)->0,
{
    let chars = chars_of(terminal_title);
    let trimmed = crate::shortcuts::trimmed_text(&chars);
    if trimmed.as_str().is_empty() {
        return None;
    }
    let cur = current.to_owned();
    if trimmed == cur {
        return None;
    }
    Some(trimmed)
}

/// The window's title: the product name, then the active tab's title if there is one.
pub open spec fn window_title_text(active: Option<Seq<char>>) -> Seq<char> {
    match active {
        Some(t) => "SuperPower Terminal - "@ + t,
        None => "SuperPower Terminal"@,
    }
}

/// The window's title for the active tab's title, if any.
pub fn window_title(active: Option<&str>) -> (s: String)
    ensures
        s@ == window_title_text(match active { Some(t) => Some(t@), None => None }),
{
    match active {
        Some(t) => {
            let mut s = String::from_str("SuperPower Terminal - ");
            s.append(t);
            s
        },
        None => String::from_str("SuperPower Terminal"),
    }
}

} // verus!
