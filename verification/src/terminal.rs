use std::collections::HashSet;

use vstd::prelude::*;

use crate::cell::{char_width, spec_char_width, Cell, CellFlags, Color};
use crate::cursor::{Cursor, CursorShape};
use crate::damage::DamageTracker;
use crate::grid::{blank_row, Grid};
use crate::palette::{ansi_color, color_256, color_256_ok, spec_ansi_color, spec_color_256};
use crate::selection::Selection;
use crate::text::utf8_text;

verus! {

broadcast use vstd::std_specs::hash::group_hash_axioms;

pub open spec fn min_usize(a: usize, b: usize) -> usize {
    if a < b { a } else { b }
}

/// The pen after a single SGR code `v` that takes no arguments (unknown codes change nothing).
pub open spec fn sgr_simple(pen: Pen, dfg: Color, dbg: Color, v: u16) -> Pen {
    let f = pen.flags.0;
    if v == 0 {
        Pen { foreground: dfg, background: dbg, flags: CellFlags(0) }
    } else if v == 1 { Pen { flags: CellFlags(f | 1), ..pen } }
    else if v == 2 { Pen { flags: CellFlags(f | 128), ..pen } }
    else if v == 3 { Pen { flags: CellFlags(f | 2), ..pen } }
    else if v == 4 { Pen { flags: CellFlags(f | 4), ..pen } }
    else if v == 5 { Pen { flags: CellFlags(f | 8), ..pen } }
    else if v == 7 { Pen { flags: CellFlags(f | 16), ..pen } }
    else if v == 8 { Pen { flags: CellFlags(f | 1024), ..pen } }
    else if v == 9 { Pen { flags: CellFlags(f | 256), ..pen } }
    else if v == 21 { Pen { flags: CellFlags(f | 512), ..pen } }
    else if v == 22 { Pen { flags: CellFlags(f & !(1u16 | 128u16)), ..pen } }
    else if v == 23 { Pen { flags: CellFlags(f & !2u16), ..pen } }
    else if v == 24 { Pen { flags: CellFlags(f & !(4u16 | 512u16)), ..pen } }
    else if v == 25 { Pen { flags: CellFlags(f & !8u16), ..pen } }
    else if v == 27 { Pen { flags: CellFlags(f & !16u16), ..pen } }
    else if v == 28 { Pen { flags: CellFlags(f & !1024u16), ..pen } }
    else if v == 29 { Pen { flags: CellFlags(f & !256u16), ..pen } }
    else if 30 <= v <= 37 { Pen { foreground: spec_ansi_color(v - 30), ..pen } }
    else if v == 39 { Pen { foreground: dfg, ..pen } }
    else if 40 <= v <= 47 { Pen { background: spec_ansi_color(v - 40), ..pen } }
    else if v == 49 { Pen { background: dbg, ..pen } }
    else if 90 <= v <= 97 { Pen { foreground: spec_ansi_color(v - 90 + 8), ..pen } }
    else if 100 <= v <= 107 { Pen { background: spec_ansi_color(v - 100 + 8), ..pen } }
    else { pen }
}

/// The colour and number of extra parameters consumed by an extended colour selection
/// `38`/`48` at index `i` of `p` (`5;n` palette or `2;r;g;b` direct), if well formed.
pub open spec fn extended_color(p: Seq<u16>, i: int) -> Option<(Color, int)> {
    if i + 1 < p.len() && p[i + 1] == 5 && i + 2 < p.len() {
        Some((spec_color_256(p[i + 2] as usize), 2))
    } else if i + 1 < p.len() && p[i + 1] == 2 && i + 4 < p.len() {
        Some((Color { r: p[i + 2] as u8, g: p[i + 3] as u8, b: p[i + 4] as u8 }, 4))
    } else {
        None
    }
}

/// The pen after applying SGR parameters `p` from index `i` on.
pub open spec fn sgr_from(pen: Pen, dfg: Color, dbg: Color, p: Seq<u16>, i: int) -> Pen
    decreases p.len() - i,
{
    if i < 0 || i >= p.len() {
        pen
    } else if (p[i] == 38 || p[i] == 48) && i + 1 < p.len() {
        match extended_color(p, i) {
            Some((c, skip)) => {
                let pen2 = if p[i] == 38 { Pen { foreground: c, ..pen } } else { Pen { background: c, ..pen } };
                sgr_from(pen2, dfg, dbg, p, i + 1 + skip)
            },
            None => sgr_from(pen, dfg, dbg, p, i + 1),
        }
    } else {
        sgr_from(sgr_simple(pen, dfg, dbg, p[i]), dfg, dbg, p, i + 1)
    }
}

/// Every palette index used by SGR parameters `p` from index `i` on can be looked up.
pub open spec fn sgr_ok_from(p: Seq<u16>, i: int) -> bool
    decreases p.len() - i,
{
    if i < 0 || i >= p.len() {
        true
    } else if (p[i] == 38 || p[i] == 48) && i + 1 < p.len() {
        match extended_color(p, i) {
            Some((c, skip)) => (skip == 2 ==> color_256_ok(p[i + 2] as usize)) && sgr_ok_from(p, i + 1 + skip),
            None => sgr_ok_from(p, i + 1),
        }
    } else {
        sgr_ok_from(p, i + 1)
    }
}

/// The pen after SGR parameters `p`; no parameters resets it.
pub open spec fn spec_sgr(pen: Pen, dfg: Color, dbg: Color, p: Seq<u16>) -> Pen {
    if p.len() == 0 {
        Pen { foreground: dfg, background: dbg, flags: CellFlags(0) }
    } else {
        sgr_from(pen, dfg, dbg, p, 0)
    }
}

/// Parameter `idx` of `p`, or `default` when absent.
pub open spec fn spec_param_or(p: Seq<u16>, idx: int, default: u64) -> u64 {
    if 0 <= idx < p.len() { p[idx] as u64 } else { default }
}

/// Repeat count of a CSI sequence: the first parameter, at least 1.
pub open spec fn csi_count(p: Seq<u16>) -> usize {
    let v = spec_param_or(p, 0, 1);
    if v > 1 { v as usize } else { 1 }
}

/// One-based position parameter `idx` turned into a zero-based index (missing or 0 means 1).
pub open spec fn csi_position(p: Seq<u16>, idx: int) -> usize {
    let v = spec_param_or(p, idx, 1);
    ((if v > 1 { v } else { 1 }) - 1) as usize
}

pub open spec fn sat_sub(a: usize, b: usize) -> usize {
    if a >= b { (a - b) as usize } else { 0 }
}

/// Cursor shape chosen by DECSCUSR parameter `v`.
pub open spec fn shape_for(v: u16) -> CursorShape {
    if v == 2 {
        CursorShape::Underline
    } else if v == 3 || v == 4 {
        CursorShape::Beam
    } else {
        CursorShape::Block
    }
}

/// Parameter `idx` of `p`, or `default` when absent.
pub fn param_or(params: &[u16], idx: usize, default: u64) -> (v: u64)
    ensures
        v == spec_param_or(params@, idx as int, default),
{
    if idx < params.len() {
        params[idx] as u64
    } else {
        default
    }
}

/// `states` steps through applying (when `set`) or resetting each private mode of `p` in turn.
pub open spec fn private_mode_chain(states: Seq<Terminal>, p: Seq<u16>, set: bool) -> bool {
    &&& states.len() == p.len() + 1
    &&& forall|i: int| 0 <= i < p.len() ==> {
        &&& (#[trigger] states[i]).wf()
        &&& if set {
            &&& states[i + 1].private_mode_set() == states[i].private_mode_set().insert(p[i])
            &&& states[i + 1].set_private_mode_effect(&states[i], p[i])
        } else {
            &&& states[i + 1].private_mode_set() == states[i].private_mode_set().remove(p[i])
            &&& states[i + 1].unset_private_mode_effect(&states[i], p[i])
        }
    }
}

/// Which mouse events are reported to the application.
#[derive(Debug, Clone, Copy, PartialEq, Eq, Structural)]
pub enum MouseTrackingMode {
    /// No reports.
    Disabled,
    /// Button presses and releases (mode 1000).
    Normal,
    /// Presses, releases and drags (mode 1002).
    ButtonEvent,
    /// Every motion (mode 1003).
    AnyEvent,
}

impl Default for MouseTrackingMode {
    fn default() -> (m: MouseTrackingMode)
        ensures
            m == MouseTrackingMode::Disabled,
    {
        MouseTrackingMode::Disabled
    }
}

/// Text being composed by an input method.
#[derive(Debug, Clone, PartialEq, Eq)]
pub struct ImePreedit {
    pub text: String,
    /// Cursor range within the text, in characters.
    pub cursor_range: Option<(usize, usize)>,
}

/// The attributes new characters are drawn with.
#[derive(Debug, Clone, Copy, PartialEq, Eq, Structural)]
pub struct Pen {
    pub foreground: Color,
    pub background: Color,
    pub flags: CellFlags,
}

/// The parts of a terminal's state, for stating what an operation leaves alone.
#[derive(PartialEq, Eq, Structural)]
pub enum Part {
    Grid,
    Cursor,
    Damage,
    /// The saved cursor.
    Saved,
    Pen,
    Modes,
    PrivateModes,
    AppCursor,
    MouseMode,
    SgrMouse,
    PasteMode,
    /// The alternate-screen flag and the screen, cursor and saved cursor not on display.
    Alt,
    Preedit,
    Title,
    Selection,
}

/// Terminal state: screens, cursors, drawing attributes and modes, driven by decoded
/// control functions (`print`, `execute`, `csi_dispatch`, `osc_dispatch`).
pub struct Terminal {
    pub grid: Grid,
    pub cursor: Cursor,
    pub damage: DamageTracker,
    pub saved_cursor: Cursor,
    pub pen: Pen,
    pub default_foreground: Color,
    pub default_background: Color,
    pub modes: HashSet<u16>,
    pub private_modes: HashSet<u16>,
    pub application_cursor_keys: bool,
    pub mouse_tracking_mode: MouseTrackingMode,
    pub mouse_sgr_mode: bool,
    pub bracketed_paste_mode: bool,
    pub alternate_screen: bool,
    pub alternate_grid: Grid,
    pub alternate_cursor: Cursor,
    pub alternate_saved_cursor: Cursor,
    pub ime_preedit: Option<ImePreedit>,
    /// Window title set by OSC 0 or 2.
    pub title: String,
    pub selection: Option<Selection>,
}

impl Terminal {
    pub open spec fn saved(&self) -> Cursor {
        self.saved_cursor
    }

    pub open spec fn spec_pen(&self) -> Pen {
        self.pen
    }

    pub open spec fn default_fg(&self) -> Color {
        self.default_foreground
    }

    pub open spec fn default_bg(&self) -> Color {
        self.default_background
    }

    /// The set standard (ANSI) modes.
    pub open spec fn mode_set(&self) -> Set<u16> {
        self.modes@
    }

    /// The set DEC private modes.
    pub open spec fn private_mode_set(&self) -> Set<u16> {
        self.private_modes@
    }

    pub open spec fn app_cursor(&self) -> bool {
        self.application_cursor_keys
    }

    pub open spec fn mouse_mode(&self) -> MouseTrackingMode {
        self.mouse_tracking_mode
    }

    pub open spec fn sgr_mouse(&self) -> bool {
        self.mouse_sgr_mode
    }

    pub open spec fn paste_mode(&self) -> bool {
        self.bracketed_paste_mode
    }

    pub open spec fn alt_active(&self) -> bool {
        self.alternate_screen
    }

    /// The screen not on display (the primary one while the alternate screen is active).
    pub open spec fn other_grid(&self) -> Grid {
        self.alternate_grid
    }

    pub open spec fn other_cursor(&self) -> Cursor {
        self.alternate_cursor
    }

    pub open spec fn other_saved(&self) -> Cursor {
        self.alternate_saved_cursor
    }

    /// The input-method composition, if any: its text and cursor range.
    pub open spec fn preedit(&self) -> Option<(Seq<char>, Option<(usize, usize)>)> {
        match self.ime_preedit {
            Some(p) => Some((p.text@, p.cursor_range)),
            None => None,
        }
    }

    /// Both screens well formed and of equal size, damage tracked per screen row.
    pub open spec fn wf(&self) -> bool {
        &&& self.grid.wf()
        &&& self.alternate_grid.wf()
        &&& self.alternate_grid.num_rows() == self.grid.num_rows()
        &&& self.alternate_grid.num_cols() == self.grid.num_cols()
        &&& self.damage.wf()
        &&& self.damage.len() == self.grid.num_rows()
    }

    /// Every part of the state not listed in `changed` is the same as in `old`.
    pub open spec fn same_except(&self, old: &Terminal, changed: Set<Part>) -> bool {
        &&& (!changed.contains(Part::Grid) ==> self.grid == old.grid)
        &&& (!changed.contains(Part::Cursor) ==> self.cursor == old.cursor)
        &&& (!changed.contains(Part::Damage) ==> self.damage == old.damage)
        &&& (!changed.contains(Part::Saved) ==> self.saved_cursor == old.saved_cursor)
        &&& (!changed.contains(Part::Pen) ==> self.pen == old.pen)
        &&& self.default_foreground == old.default_foreground
        &&& self.default_background == old.default_background
        &&& (!changed.contains(Part::Modes) ==> self.modes@ == old.modes@)
        &&& (!changed.contains(Part::PrivateModes) ==> self.private_modes@ == old.private_modes@)
        &&& (!changed.contains(Part::AppCursor) ==> self.application_cursor_keys == old.application_cursor_keys)
        &&& (!changed.contains(Part::MouseMode) ==> self.mouse_tracking_mode == old.mouse_tracking_mode)
        &&& (!changed.contains(Part::SgrMouse) ==> self.mouse_sgr_mode == old.mouse_sgr_mode)
        &&& (!changed.contains(Part::PasteMode) ==> self.bracketed_paste_mode == old.bracketed_paste_mode)
        &&& (!changed.contains(Part::Alt) ==> {
            &&& self.alternate_screen == old.alternate_screen
            &&& self.alternate_grid == old.alternate_grid
            &&& self.alternate_cursor == old.alternate_cursor
            &&& self.alternate_saved_cursor == old.alternate_saved_cursor
        })
        &&& (!changed.contains(Part::Preedit) ==> self.ime_preedit == old.ime_preedit)
        &&& (!changed.contains(Part::Title) ==> self.title@ == old.title@)
        &&& (!changed.contains(Part::Selection) ==> self.selection == old.selection)
    }

    pub fn new(rows: usize, cols: usize, scrollback_limit: usize) -> (t: Terminal)
        ensures
            t.wf(),
            t.is_fresh(rows, cols, scrollback_limit, Color::spec_default_fg(), Color::spec_default_bg()),
    {
        Self::with_theme(rows, cols, scrollback_limit, Color::default_fg(), Color::default_bg())
    }

    /// The state of a terminal just created with these arguments: blank screens, cursors at
    /// the origin, default attributes, no modes set, a full redraw pending.
    pub open spec fn is_fresh(&self, rows: usize, cols: usize, scrollback_limit: usize, fg: Color, bg: Color) -> bool {
        &&& self.grid.num_rows() == rows
        &&& self.grid.num_cols() == cols
        &&& self.grid.limit() == scrollback_limit
        &&& self.grid.template() == Cell::spec_blank(fg, bg)
        &&& self.grid.lines_view() == Seq::new(rows as nat, |i: int| blank_row(cols as nat, Cell::spec_blank(fg, bg)))
        &&& self.grid.scrollback_view() == Seq::<Seq<Cell>>::empty()
        &&& self.grid.offset() == 0
        &&& self.grid.top() == 0
        &&& self.cursor == Cursor::spec_new()
        &&& self.saved() == Cursor::spec_new()
        &&& self.spec_pen() == (Pen { foreground: fg, background: bg, flags: CellFlags(0) })
        &&& self.default_fg() == fg
        &&& self.default_bg() == bg
        &&& self.mode_set() == Set::<u16>::empty()
        &&& self.private_mode_set() == Set::<u16>::empty()
        &&& !self.app_cursor()
        &&& self.mouse_mode() == MouseTrackingMode::Disabled
        &&& !self.sgr_mouse()
        &&& !self.paste_mode()
        &&& !self.alt_active()
        &&& self.other_grid().limit() == 0
        &&& self.preedit() is None
        &&& self.title@ == Seq::<char>::empty()
        &&& self.selection is None
        &&& self.damage.full()
    }

    /// A terminal whose blank cells and reset attributes use the given colours.
    pub fn with_theme(
        rows: usize,
        cols: usize,
        scrollback_limit: usize,
        default_foreground: Color,
        default_background: Color,
    ) -> (t: Terminal)
        ensures
            t.wf(),
            t.is_fresh(rows, cols, scrollback_limit, default_foreground, default_background),
    {
        let grid = Grid::with_colors(rows, cols, scrollback_limit, default_foreground, default_background);
        let alternate_grid = Grid::with_colors(rows, cols, 0, default_foreground, default_background);
        let mut terminal = Terminal {
            grid,
            cursor: Cursor::new(),
            damage: DamageTracker::new(rows),
            saved_cursor: Cursor::new(),
            pen: Pen { foreground: default_foreground, background: default_background, flags: CellFlags::empty() },
            default_foreground,
            default_background,
            modes: HashSet::new(),
            private_modes: HashSet::new(),
            application_cursor_keys: false,
            mouse_tracking_mode: MouseTrackingMode::Disabled,
            mouse_sgr_mode: false,
            bracketed_paste_mode: false,
            alternate_screen: false,
            alternate_grid,
            alternate_cursor: Cursor::new(),
            alternate_saved_cursor: Cursor::new(),
            ime_preedit: None,
            title: String::new(),
            selection: None,
        };
        terminal.damage.mark_full_redraw();
        terminal
    }

    /// Resizes both screens and the damage tracker; the on-screen cursors are clamped.
    pub fn resize(&mut self, new_rows: usize, new_cols: usize)
        requires
            old(self).wf(),
        ensures
            final(self).wf(),
            final(self).same_except(old(self), set![Part::Grid, Part::Cursor, Part::Damage, Part::Alt]),
            final(self).grid.num_rows() == new_rows,
            final(self).grid.num_cols() == new_cols,
            final(self).alt_active() == old(self).alt_active(),
            final(self).other_saved() == old(self).other_saved(),
            final(self).damage.full(),
            final(self).damage.len() == new_rows,
            final(self).cursor.row == (if new_rows > 0 && old(self).cursor.row > new_rows - 1 { (new_rows - 1) as usize } else { old(self).cursor.row }),
            final(self).cursor.col == (if new_cols > 0 && old(self).cursor.col > new_cols - 1 { (new_cols - 1) as usize } else { old(self).cursor.col }),
    {
        self.grid.resize(new_rows, new_cols);
        self.alternate_grid.resize(new_rows, new_cols);
        self.cursor.clamp(new_rows, new_cols);
        self.alternate_cursor.clamp(new_rows, new_cols);
        self.damage.resize(new_rows);
    }

    /// A cell holding `character`, drawn with the current attributes.
    pub fn make_cell(&self, character: char) -> (c: Cell)
        ensures
            c == (Cell {
                character,
                foreground: self.spec_pen().foreground,
                background: self.spec_pen().background,
                flags: self.spec_pen().flags,
            }),
    {
        Cell {
            character,
            foreground: self.pen.foreground,
            background: self.pen.background,
            flags: self.pen.flags,
        }
    }

    /// Marks screen row `row` for redraw.
    pub fn mark_dirty(&mut self, row: usize)
        requires
            old(self).wf(),
        ensures
            final(self).wf(),
            final(self).same_except(old(self), set![Part::Damage]),
            final(self).damage.len() == old(self).damage.len(),
            final(self).damage.full() == old(self).damage.full(),
            final(self).damage.rows_view() == (if row < old(self).damage.len() {
                old(self).damage.rows_view().update(row as int, true)
            } else {
                old(self).damage.rows_view()
            }),
    {
        self.damage.mark_row(row);
    }

    /// Remembers the cursor (DECSC).
    pub fn save_cursor(&mut self)
        requires
            old(self).wf(),
        ensures
            final(self).wf(),
            final(self).same_except(old(self), set![Part::Saved]),
            final(self).saved() == old(self).cursor,
    {
        self.saved_cursor = self.cursor;
    }

    /// Puts back the remembered cursor (DECRC) and marks its row for redraw.
    pub fn restore_cursor(&mut self)
        requires
            old(self).wf(),
        ensures
            final(self).wf(),
            final(self).same_except(old(self), set![Part::Cursor, Part::Damage]),
            final(self).cursor == old(self).saved(),
            final(self).damage.len() == old(self).damage.len(),
            final(self).damage.full() == old(self).damage.full(),
            final(self).damage.rows_view() == (if old(self).saved().row < old(self).damage.len() {
                old(self).damage.rows_view().update(old(self).saved().row as int, true)
            } else {
                old(self).damage.rows_view()
            }),
    {
        self.cursor = self.saved_cursor;
        let row = self.cursor.row;
        self.mark_dirty(row);
    }

    /// A blank screen the size of the current one, without history.
    pub fn fresh_alternate_grid(&self) -> (g: Grid)
        requires
            self.wf(),
        ensures
            g.wf(),
            g.num_rows() == self.grid.num_rows(),
            g.num_cols() == self.grid.num_cols(),
            g.limit() == 0,
            g.template() == Cell::spec_blank(self.default_fg(), self.default_bg()),
            g.lines_view() == Seq::new(self.grid.num_rows(), |i: int| g.blank()),
            g.scrollback_view() == Seq::<Seq<Cell>>::empty(),
            g.top() == 0,
            g.bottom() == (if self.grid.num_rows() > 0 { self.grid.num_rows() - 1 } else { 0 }),
            g.offset() == 0,
    {
        Grid::with_colors(self.grid.rows(), self.grid.cols(), 0, self.default_foreground, self.default_background)
    }

    /// `self` is `old` after switching to the alternate screen (nothing switches if it was
    /// active), where the saved cursor was `saved0` just before the switch and the parts in
    /// `also` may have been changed on the way.
    pub open spec fn entered_alt_from(&self, old: &Terminal, also: Set<Part>, saved0: Cursor) -> bool {
        &&& old.alt_active() ==> self.same_except(old, also.insert(Part::Saved)) && self.saved() == saved0
        &&& !old.alt_active() ==> {
            &&& self.same_except(old, also + set![Part::Grid, Part::Cursor, Part::Saved, Part::Alt,
                    Part::Preedit, Part::Selection, Part::Damage])
            &&& self.alt_active()
            &&& self.other_grid() == old.grid
            &&& self.other_cursor() == old.cursor
            &&& self.other_saved() == saved0
            &&& self.grid.wf()
            &&& self.grid.num_rows() == old.grid.num_rows()
            &&& self.grid.num_cols() == old.grid.num_cols()
            &&& self.grid.limit() == 0
            &&& self.grid.template() == Cell::spec_blank(old.default_fg(), old.default_bg())
            &&& self.grid.lines_view() == Seq::new(old.grid.num_rows(), |i: int| self.grid.blank())
            &&& self.grid.scrollback_view() == Seq::<Seq<Cell>>::empty()
            &&& self.grid.top() == 0
            &&& self.grid.offset() == 0
            &&& self.cursor == Cursor::spec_new()
            &&& self.saved() == Cursor::spec_new()
            &&& self.preedit() is None
            &&& self.selection is None
            &&& self.damage.full()
            &&& self.damage.rows_view() == old.damage.rows_view()
            &&& self.damage.len() == old.damage.len()
        }
    }

    /// `self` is `old` after switching back to the primary screen (nothing switches if the
    /// alternate screen was not active), where the parts in `also` may have been changed on the way.
    pub open spec fn left_alt_from(&self, old: &Terminal, also: Set<Part>) -> bool {
        &&& !old.alt_active() ==> self.same_except(old, also)
        &&& old.alt_active() ==> {
            &&& self.same_except(old, also + set![Part::Grid, Part::Cursor, Part::Saved, Part::Alt,
                    Part::Preedit, Part::Selection, Part::Damage])
            &&& !self.alt_active()
            &&& self.grid == old.other_grid()
            &&& self.cursor == old.other_cursor()
            &&& self.saved() == old.other_saved()
            &&& self.other_grid() == old.grid
            &&& self.other_cursor() == old.cursor
            &&& self.other_saved() == old.saved()
            &&& self.preedit() is None
            &&& self.selection is None
            &&& self.damage.full()
            &&& self.damage.rows_view() == old.damage.rows_view()
            &&& self.damage.len() == old.damage.len()
        }
    }

    /// Switches to a blank alternate screen with a fresh cursor, keeping the primary screen,
    /// cursor and saved cursor aside; nothing happens when it is already active.
    pub fn enter_alternate_screen(&mut self)
        requires
            old(self).wf(),
        ensures
            final(self).wf(),
            final(self).entered_alt_from(old(self), Set::empty(), old(self).saved()),
    {
        if self.alternate_screen {
            return;
        }
        self.alternate_grid = self.fresh_alternate_grid();
        self.alternate_cursor = Cursor::new();
        self.alternate_saved_cursor = Cursor::new();
        std::mem::swap(&mut self.grid, &mut self.alternate_grid);
        std::mem::swap(&mut self.cursor, &mut self.alternate_cursor);
        std::mem::swap(&mut self.saved_cursor, &mut self.alternate_saved_cursor);
        self.alternate_screen = true;
        self.ime_preedit = None;
        self.selection = None;
        self.damage.mark_full_redraw();
    }

    /// Switches back to the primary screen, cursor and saved cursor; nothing happens when the
    /// alternate screen is not active.
    pub fn leave_alternate_screen(&mut self)
        requires
            old(self).wf(),
        ensures
            final(self).wf(),
            final(self).left_alt_from(old(self), Set::empty()),
    {
        if !self.alternate_screen {
            return;
        }
        std::mem::swap(&mut self.grid, &mut self.alternate_grid);
        std::mem::swap(&mut self.cursor, &mut self.alternate_cursor);
        std::mem::swap(&mut self.saved_cursor, &mut self.alternate_saved_cursor);
        self.alternate_screen = false;
        self.ime_preedit = None;
        self.selection = None;
        self.damage.mark_full_redraw();
    }

    /// Records standard mode `mode` as set.
    pub fn set_mode(&mut self, mode: u16)
        requires
            old(self).wf(),
        ensures
            final(self).wf(),
            final(self).same_except(old(self), set![Part::Modes]),
            final(self).mode_set() == old(self).mode_set().insert(mode),
    {
        self.modes.insert(mode);
    }

    /// Records standard mode `mode` as reset.
    pub fn unset_mode(&mut self, mode: u16)
        requires
            old(self).wf(),
        ensures
            final(self).wf(),
            final(self).same_except(old(self), set![Part::Modes]),
            final(self).mode_set() == old(self).mode_set().remove(mode),
    {
        self.modes.remove(&mode);
    }

    /// Sets DEC private mode `mode` and applies it: 1 application cursor keys, 25 cursor shown,
    /// 66 application keypad, 47/1047 alternate screen, 1048 save cursor, 1049 save cursor and
    /// alternate screen, 1000/1002/1003 mouse tracking, 1006 SGR mouse encoding, 2004 bracketed paste.
    pub fn set_private_mode(&mut self, mode: u16)
        requires
            old(self).wf(),
        ensures
            final(self).wf(),
            final(self).private_mode_set() == old(self).private_mode_set().insert(mode),
            final(self).set_private_mode_effect(old(self), mode),
    {
        self.private_modes.insert(mode);
        if mode == 1 {
            self.application_cursor_keys = true;
        } else if mode == 25 {
            self.cursor.visible = true;
        } else if mode == 66 {
            self.cursor.app_mode = true;
        } else if mode == 47 || mode == 1047 {
            self.enter_alternate_screen();
        } else if mode == 1048 {
            self.save_cursor();
        } else if mode == 1049 {
            self.save_cursor();
            self.enter_alternate_screen();
        } else if mode == 1000 {
            self.mouse_tracking_mode = MouseTrackingMode::Normal;
        } else if mode == 1002 {
            self.mouse_tracking_mode = MouseTrackingMode::ButtonEvent;
        } else if mode == 1003 {
            self.mouse_tracking_mode = MouseTrackingMode::AnyEvent;
        } else if mode == 1006 {
            self.mouse_sgr_mode = true;
        } else if mode == 2004 {
            self.bracketed_paste_mode = true;
        }
    }

    /// What setting private mode `mode` does besides recording it.
    pub open spec fn set_private_mode_effect(&self, old: &Terminal, mode: u16) -> bool {
        let pm = set![Part::PrivateModes];
        if mode == 1 {
            self.same_except(old, pm.insert(Part::AppCursor)) && self.app_cursor()
        } else if mode == 25 {
            self.same_except(old, pm.insert(Part::Cursor)) && self.cursor == (Cursor { visible: true, ..old.cursor })
        } else if mode == 66 {
            self.same_except(old, pm.insert(Part::Cursor)) && self.cursor == (Cursor { app_mode: true, ..old.cursor })
        } else if mode == 47 || mode == 1047 {
            self.entered_alt_from(old, pm, old.saved())
        } else if mode == 1048 {
            self.same_except(old, pm.insert(Part::Saved)) && self.saved() == old.cursor
        } else if mode == 1049 {
            self.entered_alt_from(old, pm, old.cursor)
        } else if mode == 1000 {
            self.same_except(old, pm.insert(Part::MouseMode)) && self.mouse_mode() == MouseTrackingMode::Normal
        } else if mode == 1002 {
            self.same_except(old, pm.insert(Part::MouseMode)) && self.mouse_mode() == MouseTrackingMode::ButtonEvent
        } else if mode == 1003 {
            self.same_except(old, pm.insert(Part::MouseMode)) && self.mouse_mode() == MouseTrackingMode::AnyEvent
        } else if mode == 1006 {
            self.same_except(old, pm.insert(Part::SgrMouse)) && self.sgr_mouse()
        } else if mode == 2004 {
            self.same_except(old, pm.insert(Part::PasteMode)) && self.paste_mode()
        } else {
            self.same_except(old, pm)
        }
    }

    /// Resets DEC private mode `mode` and undoes its effect: 1/25/66/1006/2004 clear their flag,
    /// 47/1047 leave the alternate screen, 1048 restores the cursor, 1049 leaves the alternate
    /// screen and restores the cursor, 1000/1002/1003 stop mouse tracking.
    pub fn unset_private_mode(&mut self, mode: u16)
        requires
            old(self).wf(),
        ensures
            final(self).wf(),
            final(self).private_mode_set() == old(self).private_mode_set().remove(mode),
            final(self).unset_private_mode_effect(old(self), mode),
    {
        self.private_modes.remove(&mode);
        if mode == 1 {
            self.application_cursor_keys = false;
        } else if mode == 25 {
            self.cursor.visible = false;
        } else if mode == 66 {
            self.cursor.app_mode = false;
        } else if mode == 47 || mode == 1047 {
            self.leave_alternate_screen();
        } else if mode == 1048 {
            self.restore_cursor();
        } else if mode == 1049 {
            self.leave_alternate_screen();
            self.restore_cursor();
        } else if mode == 1000 || mode == 1002 || mode == 1003 {
            self.mouse_tracking_mode = MouseTrackingMode::Disabled;
        } else if mode == 1006 {
            self.mouse_sgr_mode = false;
        } else if mode == 2004 {
            self.bracketed_paste_mode = false;
        }
    }

    /// `self.damage` is `old.damage` with row `row` (if given) marked, the full-redraw flag
    /// set when `full`.
    pub open spec fn damage_marked(&self, old: &Terminal, row: Option<usize>, full: bool) -> bool {
        &&& self.damage.len() == old.damage.len()
        &&& self.damage.full() == (old.damage.full() || full)
        &&& self.damage.rows_view() == (if row is Some && row->0 < old.damage.len() {
                old.damage.rows_view().update(row->0 as int, true)
            } else {
                old.damage.rows_view()
            })
    }

    /// What resetting private mode `mode` does besides recording it.
    pub open spec fn unset_private_mode_effect(&self, old: &Terminal, mode: u16) -> bool {
        let pm = set![Part::PrivateModes];
        if mode == 1 {
            self.same_except(old, pm.insert(Part::AppCursor)) && !self.app_cursor()
        } else if mode == 25 {
            self.same_except(old, pm.insert(Part::Cursor)) && self.cursor == (Cursor { visible: false, ..old.cursor })
        } else if mode == 66 {
            self.same_except(old, pm.insert(Part::Cursor)) && self.cursor == (Cursor { app_mode: false, ..old.cursor })
        } else if mode == 47 || mode == 1047 {
            self.left_alt_from(old, pm)
        } else if mode == 1048 {
            &&& self.same_except(old, pm + set![Part::Cursor, Part::Damage])
            &&& self.cursor == old.saved()
            &&& self.damage_marked(old, Some(old.saved().row), false)
        } else if mode == 1049 {
            let s0 = if old.alt_active() { old.other_saved() } else { old.saved() };
            &&& self.cursor == s0
            &&& self.damage_marked(old, Some(s0.row), old.alt_active())
            &&& !self.alt_active()
            &&& old.alt_active() ==> {
                &&& self.same_except(old, pm + set![Part::Grid, Part::Cursor, Part::Saved, Part::Alt,
                        Part::Preedit, Part::Selection, Part::Damage])
                &&& self.grid == old.other_grid()
                &&& self.saved() == old.other_saved()
                &&& self.other_grid() == old.grid
                &&& self.other_cursor() == old.cursor
                &&& self.other_saved() == old.saved()
                &&& self.preedit() is None
                &&& self.selection is None
            }
            &&& !old.alt_active() ==> self.same_except(old, pm + set![Part::Cursor, Part::Damage])
        } else if mode == 1000 || mode == 1002 || mode == 1003 {
            self.same_except(old, pm.insert(Part::MouseMode)) && self.mouse_mode() == MouseTrackingMode::Disabled
        } else if mode == 1006 {
            self.same_except(old, pm.insert(Part::SgrMouse)) && !self.sgr_mouse()
        } else if mode == 2004 {
            self.same_except(old, pm.insert(Part::PasteMode)) && !self.paste_mode()
        } else {
            self.same_except(old, pm)
        }
    }

    pub fn application_cursor_keys(&self) -> (b: bool)
        ensures
            b == self.app_cursor(),
    {
        self.application_cursor_keys
    }

    pub fn keypad_application_mode(&self) -> (b: bool)
        ensures
            b == self.cursor.app_mode,
    {
        self.cursor.app_mode
    }

    pub fn mouse_tracking_mode(&self) -> (m: MouseTrackingMode)
        ensures
            m == self.mouse_mode(),
    {
        self.mouse_tracking_mode
    }

    pub fn mouse_sgr_mode(&self) -> (b: bool)
        ensures
            b == self.sgr_mouse(),
    {
        self.mouse_sgr_mode
    }

    pub fn bracketed_paste_mode(&self) -> (b: bool)
        ensures
            b == self.paste_mode(),
    {
        self.bracketed_paste_mode
    }

    pub fn alternate_screen(&self) -> (b: bool)
        ensures
            b == self.alt_active(),
    {
        self.alternate_screen
    }

    /// Shows input-method composition text; empty text clears it instead.
    pub fn set_ime_preedit(&mut self, text: String, cursor_range: Option<(usize, usize)>)
        requires
            old(self).wf(),
        ensures
            final(self).wf(),
            text@.len() == 0 ==> final(self).cleared_preedit_from(old(self)),
            text@.len() > 0 ==> {
                &&& final(self).same_except(old(self), set![Part::Preedit, Part::Damage])
                &&& final(self).preedit() == Some((text@, cursor_range))
                &&& final(self).damage_marked(old(self), None, true)
            },
    {
        if text.as_str().is_empty() {
            self.clear_ime_preedit();
            return;
        }
        self.ime_preedit = Some(ImePreedit { text, cursor_range });
        self.damage.mark_full_redraw();
    }

    /// `self` is `old` with the composition text removed; a redraw is requested if there was one.
    pub open spec fn cleared_preedit_from(&self, old: &Terminal) -> bool {
        &&& self.same_except(old, set![Part::Preedit, Part::Damage])
        &&& self.preedit() is None
        &&& self.damage_marked(old, None, old.preedit() is Some)
    }

    /// Removes the input-method composition text.
    pub fn clear_ime_preedit(&mut self)
        requires
            old(self).wf(),
        ensures
            final(self).wf(),
            final(self).cleared_preedit_from(old(self)),
    {
        if self.ime_preedit.is_some() {
            self.ime_preedit = None;
            self.damage.mark_full_redraw();
        }
    }

    /// The input-method composition, if any.
    pub fn ime_preedit(&self) -> (p: Option<&ImePreedit>)
        ensures
            p is Some <==> self.preedit() is Some,
            p matches Some(x) ==> self.preedit() == Some((x.text@, x.cursor_range)),
    {
        match &self.ime_preedit {
            Some(p) => Some(p),
            None => None,
        }
    }

    /// `old` with its cursor moved to column `col`.
    pub open spec fn at_col(old: Terminal, col: usize) -> Terminal {
        Terminal { cursor: Cursor { col, ..old.cursor }, ..old }
    }

    /// `self` is `old` after a line feed: at the bottom of the scroll region the region
    /// scrolls up (the view returns to live output), otherwise the cursor moves down a row
    /// unless it is on the last row.
    pub open spec fn newline_from(&self, old: &Terminal) -> bool {
        let row = old.cursor.row;
        if row == old.grid.bottom() {
            &&& self.same_except(old, set![Part::Grid, Part::Damage])
            &&& self.grid.is_scrolled_up_from(&old.grid)
            &&& self.grid.offset() == 0
            &&& self.damage_marked(old, None, true)
        } else if row + 1 < old.grid.num_rows() {
            self.same_except(old, set![Part::Cursor]) && self.cursor == (Cursor { row: (row + 1) as usize, ..old.cursor })
        } else {
            self.same_except(old, Set::empty())
        }
    }

    /// A line feed cannot fail here: the screen has rows or the cursor sits on the scroll bottom.
    pub open spec fn newline_ok(&self) -> bool {
        self.grid.num_rows() > 0 || self.cursor.row == self.grid.bottom()
    }

    /// Line feed (LF).
    pub fn newline(&mut self)
        requires
            old(self).wf(),
            old(self).newline_ok(),
        ensures
            final(self).wf(),
            final(self).newline_from(old(self)),
    {
        let row = self.cursor.row;
        let bottom = self.grid.scroll_bottom();
        if row == bottom {
            self.grid.scroll_up();
            self.grid.reset_display_offset();
            self.damage.mark_full_redraw();
        } else if row < self.grid.rows() - 1 {
            self.cursor.row = row + 1;
        }
    }

    /// Carriage return (CR): the cursor goes to column 0.
    pub fn carriage_return(&mut self)
        requires
            old(self).wf(),
        ensures
            final(self).wf(),
            *final(self) == Terminal::at_col(*old(self), 0),
    {
        self.cursor.col = 0;
    }

    /// Horizontal tab (HT): to the next multiple of 8, at most the last column.
    pub fn tab(&mut self)
        requires
            old(self).wf(),
            old(self).grid.num_cols() > 0,
            old(self).cursor.col + 8 <= usize::MAX,
        ensures
            final(self).wf(),
            *final(self) == Terminal::at_col(*old(self), min_usize(
                ((old(self).cursor.col / 8 + 1) * 8) as usize, (old(self).grid.num_cols() - 1) as usize)),
    {
        let col = self.cursor.col;
        let next_tab = (col / 8 + 1) * 8;
        let last = self.grid.cols() - 1;
        self.cursor.col = if next_tab < last { next_tab } else { last };
    }

    /// Backspace (BS): one column left unless at the first column.
    pub fn backspace(&mut self)
        requires
            old(self).wf(),
        ensures
            final(self).wf(),
            *final(self) == Terminal::at_col(*old(self), if old(self).cursor.col > 0 { (old(self).cursor.col - 1) as usize } else { 0 }),
    {
        if self.cursor.col > 0 {
            self.cursor.col = self.cursor.col - 1;
        }
    }

    /// The cell written for `c` with pen `pen`, wide-flagged for width 2.
    pub open spec fn glyph_cell(pen: Pen, c: char) -> Cell {
        Cell {
            character: c,
            foreground: pen.foreground,
            background: pen.background,
            flags: if spec_char_width(c) == 2 { CellFlags(pen.flags.0 | 32) } else { pen.flags },
        }
    }

    /// The placeholder written right of a wide character.
    pub open spec fn spacer_cell(pen: Pen) -> Cell {
        Cell { character: ' ', foreground: pen.foreground, background: pen.background, flags: CellFlags(64) }
    }

    /// `self` is `mid` after drawing `c` at the cursor (no wrapping): zero-width characters
    /// change nothing; otherwise the cell (and for a wide character with room, its spacer) is
    /// written, the row marked dirty and the cursor advanced past it.
    pub open spec fn printed_from(&self, mid: &Terminal, c: char) -> bool {
        let row = mid.cursor.row;
        let col = mid.cursor.col;
        let w = spec_char_width(c);
        let cols = mid.grid.num_cols();
        let wide_fits = w == 2 && col + 1 < cols;
        let l0 = mid.grid.lines_view();
        let l1 = if row < mid.grid.num_rows() && col < cols {
            l0.update(row as int, l0[row as int].update(col as int, Terminal::glyph_cell(mid.pen, c)))
        } else {
            l0
        };
        let l2 = if wide_fits && row < mid.grid.num_rows() {
            l1.update(row as int, l1[row as int].update(col + 1, Terminal::spacer_cell(mid.pen)))
        } else {
            l1
        };
        if w == 0 {
            *self == *mid
        } else {
            &&& self.same_except(mid, set![Part::Grid, Part::Cursor, Part::Damage])
            &&& self.grid.same_but_lines(&mid.grid)
            &&& self.grid.lines_view() == l2
            &&& self.cursor == (Cursor { col: (if wide_fits { col + 2 } else { col + 1 }) as usize, ..mid.cursor })
            &&& self.damage_marked(mid, Some(row), false)
        }
    }

    /// Whether printing at the cursor cannot fail: wrapping needs a working line feed.
    pub open spec fn put_char_ok(&self) -> bool {
        self.cursor.col >= self.grid.num_cols() ==> Terminal::at_col(*self, 0).newline_ok()
    }

    /// Draws `c` at the cursor without wrapping.
    pub fn print_at_cursor(&mut self, c: char)
        requires
            old(self).wf(),
            old(self).cursor.col < usize::MAX,
        ensures
            final(self).wf(),
            final(self).printed_from(old(self), c),
    {
        let row = self.cursor.row;
        let col = self.cursor.col;
        let width = char_width(c);
        if width == 0 {
            return;
        }
        let mut cell = self.make_cell(c);
        if width == 2 {
            cell.flags = cell.flags | CellFlags::wide();
        }
        self.grid.write_cell(row, col, cell);
        self.mark_dirty(row);
        if width == 2 && col + 1 < self.grid.cols() {
            let mut spacer = Cell::blank_with_colors(self.pen.foreground, self.pen.background);
            spacer.flags = CellFlags::wide_char_spacer();
            self.grid.write_cell(row, col + 1, spacer);
            self.cursor.col = col + 2;
        } else {
            self.cursor.col = col + 1;
        }
    }

    /// Prints `c` at the cursor, first wrapping to the next line when the cursor is past the
    /// last column.
    pub fn put_char(&mut self, c: char)
        requires
            old(self).wf(),
            old(self).put_char_ok(),
        ensures
            final(self).wf(),
            exists|mid: Terminal| {
                &&& mid.wf()
                &&& (if old(self).cursor.col >= old(self).grid.num_cols() {
                        mid.newline_from(&Terminal::at_col(*old(self), 0))
                    } else {
                        mid == *old(self)
                    })
                &&& #[trigger] final(self).printed_from(&mid, c)
            },
    {
        if self.cursor.col >= self.grid.cols() {
            self.cursor.col = 0;
            self.newline();
        }
        let ghost mid = *self;
        self.print_at_cursor(c);
        assert(final(self).printed_from(&mid, c));
    }

    /// Select Graphic Rendition: updates the drawing attributes from `params`.
    pub fn sgr(&mut self, params: &[u16])
        requires
            old(self).wf(),
            sgr_ok_from(params@, 0),
        ensures
            final(self).wf(),
            final(self).same_except(old(self), set![Part::Pen]),
            final(self).spec_pen() == spec_sgr(old(self).spec_pen(), old(self).default_fg(), old(self).default_bg(), params@),
    {
        let dfg = self.default_foreground;
        let dbg = self.default_background;
        if params.len() == 0 {
            self.pen = Pen { foreground: dfg, background: dbg, flags: CellFlags::empty() };
            return;
        }
        let ghost p = params@;
        let n = params.len();
        let mut i: usize = 0;
        while i < n
            invariant
                n == p.len(),
                p == params@,
                i <= n + 4,
                dfg == self.default_foreground,
                dbg == self.default_background,
                sgr_ok_from(p, i as int),
                sgr_from(self.pen, dfg, dbg, p, i as int) == sgr_from(old(self).pen, dfg, dbg, p, 0),
                self.same_except(old(self), set![Part::Pen]),
                self.wf(),
            decreases n + 4 - i,
        {
            let v = params[i];
            if (v == 38 || v == 48) && n - i > 1 {
                let sel = params[i + 1];
                if sel == 5 && n - i > 2 {
                    let c = color_256(params[i + 2] as usize);
                    if v == 38 { self.pen.foreground = c; } else { self.pen.background = c; }
                    i = i + 2;
                } else if sel == 2 && n - i > 4 {
                    let c = Color::new(#[verifier::truncate] (params[i + 2] as u8), #[verifier::truncate] (params[i + 3] as u8), #[verifier::truncate] (params[i + 4] as u8));
                    if v == 38 { self.pen.foreground = c; } else { self.pen.background = c; }
                    i = i + 4;
                }
            } else {
                self.apply_sgr_code(v);
            }
            i = i + 1;
        }
    }

    /// Applies one SGR code that takes no arguments.
    fn apply_sgr_code(&mut self, v: u16)
        requires
            old(self).wf(),
        ensures
            final(self).wf(),
            final(self).same_except(old(self), set![Part::Pen]),
            final(self).pen == sgr_simple(old(self).pen, old(self).default_foreground, old(self).default_background, v),
    {
        let f = self.pen.flags;
        if v == 0 {
            self.pen = Pen { foreground: self.default_foreground, background: self.default_background, flags: CellFlags::empty() };
        } else if v == 1 { self.pen.flags = f | CellFlags::bold(); }
        else if v == 2 { self.pen.flags = f | CellFlags::dim(); }
        else if v == 3 { self.pen.flags = f | CellFlags::italic(); }
        else if v == 4 { self.pen.flags = f | CellFlags::underline(); }
        else if v == 5 { self.pen.flags = f | CellFlags::blink(); }
        else if v == 7 { self.pen.flags = f | CellFlags::reverse(); }
        else if v == 8 { self.pen.flags = f | CellFlags::hidden(); }
        else if v == 9 { self.pen.flags = f | CellFlags::strikethrough(); }
        else if v == 21 { self.pen.flags = f | CellFlags::double_underline(); }
        else if v == 22 { self.pen.flags = f.without(CellFlags::bold() | CellFlags::dim()); }
        else if v == 23 { self.pen.flags = f.without(CellFlags::italic()); }
        else if v == 24 { self.pen.flags = f.without(CellFlags::underline() | CellFlags::double_underline()); }
        else if v == 25 { self.pen.flags = f.without(CellFlags::blink()); }
        else if v == 27 { self.pen.flags = f.without(CellFlags::reverse()); }
        else if v == 28 { self.pen.flags = f.without(CellFlags::hidden()); }
        else if v == 29 { self.pen.flags = f.without(CellFlags::strikethrough()); }
        else if 30 <= v && v <= 37 { self.pen.foreground = ansi_color((v - 30) as usize); }
        else if v == 39 { self.pen.foreground = self.default_foreground; }
        else if 40 <= v && v <= 47 { self.pen.background = ansi_color((v - 40) as usize); }
        else if v == 49 { self.pen.background = self.default_background; }
        else if 90 <= v && v <= 97 { self.pen.foreground = ansi_color((v - 90 + 8) as usize); }
        else if 100 <= v && v <= 107 { self.pen.background = ansi_color((v - 100 + 8) as usize); }
    }

    /// `self` is `old` with the cursor moved to (`row`, `col`) and that row marked for redraw.
    pub open spec fn moved_to(&self, old: &Terminal, row: usize, col: usize) -> bool {
        &&& self.same_except(old, set![Part::Cursor, Part::Damage])
        &&& self.cursor == (Cursor { row, col, ..old.cursor })
        &&& self.damage_marked(old, Some(row), false)
    }

    /// Moves the cursor to (`row`, `col`) and marks that row for redraw.
    fn move_cursor(&mut self, row: usize, col: usize)
        requires
            old(self).wf(),
        ensures
            final(self).wf(),
            final(self).moved_to(old(self), row, col),
    {
        self.cursor.row = row;
        self.cursor.col = col;
        self.mark_dirty(row);
    }

    /// `self` is `old` after Erase in Display with mode `mode` (0 below, 1 above, 2 all,
    /// 3 history); a full redraw follows in every case.
    pub open spec fn erased_display_from(&self, old: &Terminal, mode: u64) -> bool {
        let row = old.cursor.row;
        let col = old.cursor.col;
        &&& self.same_except(old, set![Part::Grid, Part::Damage])
        &&& self.damage_marked(old, None, true)
        &&& self.grid.wf()
        &&& if mode == 3 {
            &&& self.grid.lines_view() == old.grid.lines_view()
            &&& self.grid.scrollback_view() == Seq::<Seq<Cell>>::empty()
            &&& self.grid.offset() == 0
            &&& self.grid.num_rows() == old.grid.num_rows()
            &&& self.grid.num_cols() == old.grid.num_cols()
            &&& self.grid.limit() == old.grid.limit()
            &&& self.grid.top() == old.grid.top()
            &&& self.grid.bottom() == old.grid.bottom()
            &&& self.grid.template() == old.grid.template()
        } else {
            &&& self.grid.same_but_lines(&old.grid)
            &&& self.grid.lines_view() == (if mode == 0 {
                    old.grid.below_cleared(row, col)
                } else if mode == 1 {
                    old.grid.above_cleared(row, col)
                } else if mode == 2 {
                    old.grid.all_cleared()
                } else {
                    old.grid.lines_view()
                })
        }
    }

    /// Erase in Display cannot fail for `mode` at the current cursor.
    pub open spec fn erase_display_ok(&self, mode: u64) -> bool {
        &&& mode == 0 ==> self.cursor.row < usize::MAX && (self.cursor.row < self.grid.num_rows() ==> self.cursor.col <= self.grid.num_cols())
        &&& mode == 1 ==> (self.cursor.row < self.grid.num_rows() ==> self.grid.num_cols() > 0)
    }

    /// Erase in Display (ED).
    fn erase_display(&mut self, mode: u64)
        requires
            old(self).wf(),
            old(self).erase_display_ok(mode),
        ensures
            final(self).wf(),
            final(self).erased_display_from(old(self), mode),
    {
        let row = self.cursor.row;
        let col = self.cursor.col;
        if mode == 0 {
            self.grid.clear_below(row, col);
        } else if mode == 1 {
            self.grid.clear_above(row, col);
        } else if mode == 2 {
            self.grid.clear_all();
        } else if mode == 3 {
            self.grid.clear_scrollback();
        }
        self.damage.mark_full_redraw();
    }

    /// `self` is `old` after Erase in Line with mode `mode` (0 right, 1 left, 2 whole line);
    /// the cursor row is marked for redraw.
    pub open spec fn erased_line_from(&self, old: &Terminal, mode: u64) -> bool {
        let row = old.cursor.row;
        let col = old.cursor.col;
        &&& self.same_except(old, set![Part::Grid, Part::Damage])
        &&& self.damage_marked(old, Some(row), false)
        &&& self.grid.wf()
        &&& self.grid.same_but_lines(&old.grid)
        &&& self.grid.lines_view() == (if mode == 0 {
                old.grid.right_cleared(row, col)
            } else if mode == 1 {
                old.grid.left_cleared(row, col)
            } else if mode == 2 {
                old.grid.row_cleared(row)
            } else {
                old.grid.lines_view()
            })
    }

    /// Erase in Line cannot fail for `mode` at the current cursor.
    pub open spec fn erase_line_ok(&self, mode: u64) -> bool {
        &&& mode == 0 ==> (self.cursor.row < self.grid.num_rows() ==> self.cursor.col <= self.grid.num_cols())
        &&& mode == 1 ==> (self.cursor.row < self.grid.num_rows() ==> self.grid.num_cols() > 0)
    }

    /// Erase in Line (EL).
    fn erase_line(&mut self, mode: u64)
        requires
            old(self).wf(),
            old(self).erase_line_ok(mode),
        ensures
            final(self).wf(),
            final(self).erased_line_from(old(self), mode),
    {
        let row = self.cursor.row;
        let col = self.cursor.col;
        if mode == 0 {
            self.grid.clear_right(row, col);
        } else if mode == 1 {
            self.grid.clear_left(row, col);
        } else if mode == 2 {
            self.grid.clear_row(row);
        }
        self.mark_dirty(row);
    }

    /// Insert Lines (IL): the scroll region scrolls down `n` times; a full redraw follows.
    fn insert_lines(&mut self, n: u64)
        requires
            old(self).wf(),
        ensures
            final(self).wf(),
            final(self).same_except(old(self), set![Part::Grid, Part::Damage]),
            final(self).damage_marked(old(self), None, true),
            final(self).grid.wf(),
            final(self).grid.same_but_lines(&old(self).grid),
            final(self).grid.lines_view() == old(self).grid.scrolled_down_n(n as nat),
    {
        let mut k: u64 = 0;
        while k < n
            invariant
                k <= n,
                self.wf(),
                self.same_except(old(self), set![Part::Grid]),
                self.grid.same_but_lines(&old(self).grid),
                self.grid.lines_view() == old(self).grid.scrolled_down_n(k as nat),
            decreases n - k,
        {
            self.grid.scroll_down();
            k = k + 1;
        }
        self.damage.mark_full_redraw();
    }

    /// Delete Lines (DL): the scroll region scrolls up `n` times (lines leaving the top row go
    /// to the history); a full redraw follows.
    fn delete_lines(&mut self, n: u64)
        requires
            old(self).wf(),
        ensures
            final(self).wf(),
            final(self).same_except(old(self), set![Part::Grid, Part::Damage]),
            final(self).damage_marked(old(self), None, true),
            final(self).grid.wf(),
            final(self).grid.num_rows() == old(self).grid.num_rows(),
            final(self).grid.num_cols() == old(self).grid.num_cols(),
            final(self).grid.limit() == old(self).grid.limit(),
            final(self).grid.top() == old(self).grid.top(),
            final(self).grid.bottom() == old(self).grid.bottom(),
            final(self).grid.offset() == old(self).grid.offset(),
            final(self).grid.template() == old(self).grid.template(),
            (final(self).grid.lines_view(), final(self).grid.scrollback_view()) == old(self).grid.scrolled_up_n(n as nat),
    {
        let mut k: u64 = 0;
        while k < n
            invariant
                k <= n,
                self.wf(),
                self.same_except(old(self), set![Part::Grid]),
                self.grid.num_rows() == old(self).grid.num_rows(),
                self.grid.num_cols() == old(self).grid.num_cols(),
                self.grid.limit() == old(self).grid.limit(),
                self.grid.top() == old(self).grid.top(),
                self.grid.bottom() == old(self).grid.bottom(),
                self.grid.offset() == old(self).grid.offset(),
                self.grid.template() == old(self).grid.template(),
                (self.grid.lines_view(), self.grid.scrollback_view()) == old(self).grid.scrolled_up_n(k as nat),
            decreases n - k,
        {
            self.grid.scroll_up();
            k = k + 1;
        }
        self.damage.mark_full_redraw();
    }

    /// Applies each private mode of `modes` in turn.
    fn set_private_modes(&mut self, modes: &[u16])
        requires
            old(self).wf(),
        ensures
            final(self).wf(),
            exists|states: Seq<Terminal>| {
                &&& states[0] == *old(self)
                &&& #[trigger] states[modes@.len() as int] == *final(self)
                &&& private_mode_chain(states, modes@, true)
            },
    {
        let ghost mut states: Seq<Terminal> = seq![*self];
        let mut i: usize = 0;
        while i < modes.len()
            invariant
                i <= modes@.len(),
                self.wf(),
                states.len() == i + 1,
                states[0] == *old(self),
                states[i as int] == *self,
                private_mode_chain(states, modes@.take(i as int), true),
            decreases modes@.len() - i,
        {
            self.set_private_mode(modes[i]);
            proof {
                let s2 = states.push(*self);
                assert forall|k: int| 0 <= k < i + 1 implies {
                    &&& (#[trigger] s2[k]).wf()
                    &&& s2[k + 1].private_mode_set() == s2[k].private_mode_set().insert(modes@.take(i + 1)[k])
                    &&& s2[k + 1].set_private_mode_effect(&s2[k], modes@.take(i + 1)[k])
                } by {
                    if k < i {
                        assert(states[k].wf());
                        assert(modes@.take(i + 1)[k] == modes@.take(i as int)[k]);
                    }
                }
                states = s2;
            }
            i = i + 1;
        }
        assert(modes@.take(modes@.len() as int) =~= modes@);
    }

    /// Resets each private mode of `modes` in turn.
    fn unset_private_modes(&mut self, modes: &[u16])
        requires
            old(self).wf(),
        ensures
            final(self).wf(),
            exists|states: Seq<Terminal>| {
                &&& states[0] == *old(self)
                &&& #[trigger] states[modes@.len() as int] == *final(self)
                &&& private_mode_chain(states, modes@, false)
            },
    {
        let ghost mut states: Seq<Terminal> = seq![*self];
        let mut i: usize = 0;
        while i < modes.len()
            invariant
                i <= modes@.len(),
                self.wf(),
                states.len() == i + 1,
                states[0] == *old(self),
                states[i as int] == *self,
                private_mode_chain(states, modes@.take(i as int), false),
            decreases modes@.len() - i,
        {
            self.unset_private_mode(modes[i]);
            proof {
                let s2 = states.push(*self);
                assert forall|k: int| 0 <= k < i + 1 implies {
                    &&& (#[trigger] s2[k]).wf()
                    &&& s2[k + 1].private_mode_set() == s2[k].private_mode_set().remove(modes@.take(i + 1)[k])
                    &&& s2[k + 1].unset_private_mode_effect(&s2[k], modes@.take(i + 1)[k])
                } by {
                    if k < i {
                        assert(states[k].wf());
                        assert(modes@.take(i + 1)[k] == modes@.take(i as int)[k]);
                    }
                }
                states = s2;
            }
            i = i + 1;
        }
        assert(modes@.take(modes@.len() as int) =~= modes@);
    }

    /// Records each standard mode of `modes` as set.
    fn set_modes(&mut self, modes: &[u16])
        requires
            old(self).wf(),
        ensures
            final(self).wf(),
            final(self).same_except(old(self), set![Part::Modes]),
            final(self).mode_set() == old(self).mode_set() + modes@.to_set(),
    {
        let mut i: usize = 0;
        while i < modes.len()
            invariant
                i <= modes@.len(),
                self.wf(),
                self.same_except(old(self), set![Part::Modes]),
                self.mode_set() == old(self).mode_set() + modes@.take(i as int).to_set(),
            decreases modes@.len() - i,
        {
            self.set_mode(modes[i]);
            proof {
                assert(modes@.take(i + 1).to_set() =~= modes@.take(i as int).to_set().insert(modes@[i as int])) by {
                    assert(modes@.take(i + 1) =~= modes@.take(i as int).push(modes@[i as int]));
                    modes@.take(i as int).lemma_push_to_set_commute(modes@[i as int]);
                }
            }
            i = i + 1;
        }
        assert(modes@.take(modes@.len() as int) =~= modes@);
    }

    /// Records each standard mode of `modes` as reset.
    fn unset_modes(&mut self, modes: &[u16])
        requires
            old(self).wf(),
        ensures
            final(self).wf(),
            final(self).same_except(old(self), set![Part::Modes]),
            final(self).mode_set() == old(self).mode_set() - modes@.to_set(),
    {
        let mut i: usize = 0;
        while i < modes.len()
            invariant
                i <= modes@.len(),
                self.wf(),
                self.same_except(old(self), set![Part::Modes]),
                self.mode_set() == old(self).mode_set() - modes@.take(i as int).to_set(),
            decreases modes@.len() - i,
        {
            self.unset_mode(modes[i]);
            proof {
                assert(modes@.take(i + 1).to_set() =~= modes@.take(i as int).to_set().insert(modes@[i as int])) by {
                    assert(modes@.take(i + 1) =~= modes@.take(i as int).push(modes@[i as int]));
                    modes@.take(i as int).lemma_push_to_set_commute(modes@[i as int]);
                }
                assert(self.mode_set() =~= old(self).mode_set() - modes@.take(i + 1).to_set());
            }
            i = i + 1;
        }
        assert(modes@.take(modes@.len() as int) =~= modes@);
    }

    /// Top and bottom (one-based) requested by DECSTBM parameters `p` on a screen of `rows` rows.
    pub open spec fn region_request(p: Seq<u16>, rows: nat) -> (int, int) {
        let top = spec_param_or(p, 0, 1) as int;
        let bottom = if p.len() > 1 { p[1] as int } else { rows as int };
        (top, bottom)
    }

    /// DECSTBM cannot fail: a usable request does not start at row 0.
    pub open spec fn region_ok(&self, p: Seq<u16>) -> bool {
        let (top, bottom) = Terminal::region_request(p, self.grid.num_rows());
        (top < bottom && bottom <= self.grid.num_rows()) ==> top >= 1
    }

    /// `self` is `old` after DECSTBM with parameters `p`: a request with top above bottom inside
    /// the screen becomes the scroll region; the cursor goes home and a full redraw follows.
    pub open spec fn region_set_from(&self, old: &Terminal, p: Seq<u16>) -> bool {
        let (top, bottom) = Terminal::region_request(p, old.grid.num_rows());
        &&& self.same_except(old, set![Part::Grid, Part::Cursor, Part::Damage])
        &&& self.damage_marked(old, None, true)
        &&& self.cursor == (Cursor { row: 0, col: 0, ..old.cursor })
        &&& self.grid.wf()
        &&& self.grid.lines_view() == old.grid.lines_view()
        &&& self.grid.scrollback_view() == old.grid.scrollback_view()
        &&& self.grid.num_rows() == old.grid.num_rows()
        &&& self.grid.num_cols() == old.grid.num_cols()
        &&& self.grid.limit() == old.grid.limit()
        &&& self.grid.offset() == old.grid.offset()
        &&& self.grid.template() == old.grid.template()
        &&& if top < bottom && bottom <= old.grid.num_rows() {
            self.grid.top() == top - 1 && self.grid.bottom() == bottom - 1
        } else {
            self.grid.top() == old.grid.top() && self.grid.bottom() == old.grid.bottom()
        }
    }

    /// Set Top and Bottom Margins (DECSTBM).
    fn set_scrolling_region(&mut self, params: &[u16])
        requires
            old(self).wf(),
            old(self).region_ok(params@),
        ensures
            final(self).wf(),
            final(self).region_set_from(old(self), params@),
    {
        let rows = self.grid.rows();
        let top = param_or(params, 0, 1) as usize;
        let bottom = if params.len() > 1 { params[1] as usize } else { rows };
        if top < bottom && bottom <= rows {
            self.grid.set_scroll_region(top - 1, bottom - 1);
        }
        self.cursor.row = 0;
        self.cursor.col = 0;
        self.damage.mark_full_redraw();
    }

    /// A CSI sequence with final character `action` cannot fail here: moves that clamp to the
    /// screen need a non-empty screen and no overflow, erasures need a cursor the line can
    /// hold, DECSTBM must not start at row 0, SGR palette indices must be usable.
    pub open spec fn csi_ok(&self, p: Seq<u16>, action: char) -> bool {
        let n = csi_count(p);
        if action == 'B' || action == 'E' {
            self.grid.num_rows() > 0 && self.cursor.row + n <= usize::MAX
        } else if action == 'C' {
            self.grid.num_cols() > 0 && self.cursor.col + n <= usize::MAX
        } else if action == 'H' || action == 'f' {
            self.grid.num_rows() > 0 && self.grid.num_cols() > 0
        } else if action == 'J' {
            self.erase_display_ok(spec_param_or(p, 0, 0))
        } else if action == 'K' {
            self.erase_line_ok(spec_param_or(p, 0, 0))
        } else if action == 'r' {
            self.region_ok(p)
        } else if action == 'm' {
            sgr_ok_from(p, 0)
        } else {
            true
        }
    }

    /// `self` is `old` after the CSI sequence with parameters `p`, intermediate bytes `inter`
    /// and final character `action`.
    pub open spec fn csi_effect(&self, old: &Terminal, p: Seq<u16>, inter: Seq<u8>, action: char) -> bool {
        let n = csi_count(p);
        let row = old.cursor.row;
        let col = old.cursor.col;
        let last_row = (old.grid.num_rows() - 1) as usize;
        let last_col = (old.grid.num_cols() - 1) as usize;
        if action == 'A' {
            self.moved_to(old, sat_sub(row, n), col)
        } else if action == 'B' {
            self.moved_to(old, min_usize((row + n) as usize, last_row), col)
        } else if action == 'C' {
            self.moved_to(old, row, min_usize((col + n) as usize, last_col))
        } else if action == 'D' {
            self.moved_to(old, row, sat_sub(col, n))
        } else if action == 'E' {
            self.moved_to(old, min_usize((row + n) as usize, last_row), 0)
        } else if action == 'F' {
            self.moved_to(old, sat_sub(row, n), 0)
        } else if action == 'H' || action == 'f' {
            self.moved_to(old, min_usize(csi_position(p, 0), last_row), min_usize(csi_position(p, 1), last_col))
        } else if action == 'J' {
            self.erased_display_from(old, spec_param_or(p, 0, 0))
        } else if action == 'K' {
            self.erased_line_from(old, spec_param_or(p, 0, 0))
        } else if action == 'L' {
            &&& self.same_except(old, set![Part::Grid, Part::Damage])
            &&& self.damage_marked(old, None, true)
            &&& self.grid.wf()
            &&& self.grid.same_but_lines(&old.grid)
            &&& self.grid.lines_view() == old.grid.scrolled_down_n(n as nat)
        } else if action == 'M' {
            &&& self.same_except(old, set![Part::Grid, Part::Damage])
            &&& self.damage_marked(old, None, true)
            &&& self.grid.wf()
            &&& self.grid.num_rows() == old.grid.num_rows()
            &&& self.grid.num_cols() == old.grid.num_cols()
            &&& self.grid.limit() == old.grid.limit()
            &&& self.grid.top() == old.grid.top()
            &&& self.grid.bottom() == old.grid.bottom()
            &&& self.grid.offset() == old.grid.offset()
            &&& self.grid.template() == old.grid.template()
            &&& (self.grid.lines_view(), self.grid.scrollback_view()) == old.grid.scrolled_up_n(n as nat)
        } else if action == 'r' {
            self.region_set_from(old, p)
        } else if action == 's' {
            self.same_except(old, set![Part::Saved]) && self.saved() == old.cursor
        } else if action == 'u' {
            &&& self.same_except(old, set![Part::Cursor, Part::Damage])
            &&& self.cursor == old.saved()
            &&& self.damage_marked(old, Some(old.saved().row), false)
        } else if action == 'm' {
            &&& self.same_except(old, set![Part::Pen])
            &&& self.spec_pen() == spec_sgr(old.spec_pen(), old.default_fg(), old.default_bg(), p)
        } else if (action == 'h' || action == 'l') && inter == seq![63u8] {
            exists|states: Seq<Terminal>| {
                &&& states[0] == *old
                &&& #[trigger] states[p.len() as int] == *self
                &&& private_mode_chain(states, p, action == 'h')
            }
        } else if action == 'h' {
            self.same_except(old, set![Part::Modes]) && self.mode_set() == old.mode_set() + p.to_set()
        } else if action == 'l' {
            self.same_except(old, set![Part::Modes]) && self.mode_set() == old.mode_set() - p.to_set()
        } else if action == 'q' && p.len() > 0 {
            self.same_except(old, set![Part::Cursor]) && self.cursor == (Cursor { shape: shape_for(p[0]), ..old.cursor })
        } else {
            self.same_except(old, Set::empty())
        }
    }

    /// Handles a control sequence (CSI) with flattened parameters `params`, intermediate bytes
    /// `intermediates` (`?` marks a private mode) and final character `action`.
    pub fn csi_dispatch(&mut self, params: &[u16], intermediates: &[u8], action: char)
        requires
            old(self).wf(),
            old(self).csi_ok(params@, action),
        ensures
            final(self).wf(),
            final(self).csi_effect(old(self), params@, intermediates@, action),
    {
        let n = {
            let v = param_or(params, 0, 1);
            if v > 1 { v as usize } else { 1 }
        };
        let row = self.cursor.row;
        let col = self.cursor.col;
        let private = intermediates.len() == 1 && intermediates[0] == 63u8;
        proof {
            if private {
                assert(intermediates@ =~= seq![63u8]);
            }
            if intermediates@ =~= seq![63u8] {
                assert(intermediates@[0] == 63u8);
            }
        }
        if action == 'A' {
            let r = if row >= n { row - n } else { 0 };
            self.move_cursor(r, col);
        } else if action == 'B' {
            let last = self.grid.rows() - 1;
            let r = if row + n < last { row + n } else { last };
            self.move_cursor(r, col);
        } else if action == 'C' {
            let last = self.grid.cols() - 1;
            let c = if col + n < last { col + n } else { last };
            self.move_cursor(row, c);
        } else if action == 'D' {
            let c = if col >= n { col - n } else { 0 };
            self.move_cursor(row, c);
        } else if action == 'E' {
            let last = self.grid.rows() - 1;
            let r = if row + n < last { row + n } else { last };
            self.move_cursor(r, 0);
        } else if action == 'F' {
            let r = if row >= n { row - n } else { 0 };
            self.move_cursor(r, 0);
        } else if action == 'H' || action == 'f' {
            let pr = param_or(params, 0, 1);
            let pc = param_or(params, 1, 1);
            let r = (if pr > 1 { pr } else { 1 }) as usize - 1;
            let c = (if pc > 1 { pc } else { 1 }) as usize - 1;
            let last_r = self.grid.rows() - 1;
            let last_c = self.grid.cols() - 1;
            self.move_cursor(if r < last_r { r } else { last_r }, if c < last_c { c } else { last_c });
        } else if action == 'J' {
            self.erase_display(param_or(params, 0, 0));
        } else if action == 'K' {
            self.erase_line(param_or(params, 0, 0));
        } else if action == 'L' {
            self.insert_lines(n as u64);
        } else if action == 'M' {
            self.delete_lines(n as u64);
        } else if action == 'r' {
            self.set_scrolling_region(params);
        } else if action == 's' {
            self.save_cursor();
        } else if action == 'u' {
            self.restore_cursor();
        } else if action == 'm' {
            self.sgr(params);
        } else if action == 'h' && private {
            self.set_private_modes(params);
        } else if action == 'l' && private {
            self.unset_private_modes(params);
        } else if action == 'h' {
            self.set_modes(params);
        } else if action == 'l' {
            self.unset_modes(params);
        } else if action == 'q' {
            if params.len() > 0 {
                let v = params[0];
                self.cursor.shape = if v == 2 {
                    CursorShape::Underline
                } else if v == 3 || v == 4 {
                    CursorShape::Beam
                } else {
                    CursorShape::Block
                };
            }
        }
    }

    /// A C0 control byte cannot fail here: a tab needs columns, a line feed a working scroll.
    pub open spec fn execute_ok(&self, byte: u8) -> bool {
        &&& byte == 0x09 ==> self.grid.num_cols() > 0 && self.cursor.col + 8 <= usize::MAX
        &&& byte == 0x0A ==> self.newline_ok()
    }

    /// Executes a C0 control byte: BS, HT, LF and CR act, all others are ignored.
    pub fn execute(&mut self, byte: u8)
        requires
            old(self).wf(),
            old(self).execute_ok(byte),
        ensures
            final(self).wf(),
            byte == 0x08 ==> *final(self) == Terminal::at_col(*old(self), if old(self).cursor.col > 0 { (old(self).cursor.col - 1) as usize } else { 0 }),
            byte == 0x09 ==> *final(self) == Terminal::at_col(*old(self), min_usize(
                ((old(self).cursor.col / 8 + 1) * 8) as usize, (old(self).grid.num_cols() - 1) as usize)),
            byte == 0x0A ==> final(self).newline_from(old(self)),
            byte == 0x0D ==> *final(self) == Terminal::at_col(*old(self), 0),
            !(byte == 0x08 || byte == 0x09 || byte == 0x0A || byte == 0x0D) ==> *final(self) == *old(self),
    {
        if byte == 0x08 {
            self.backspace();
        } else if byte == 0x09 {
            self.tab();
        } else if byte == 0x0A {
            self.newline();
        } else if byte == 0x0D {
            self.carriage_return();
        }
    }

    /// Prints a character: same as `put_char`.
    pub fn print(&mut self, c: char)
        requires
            old(self).wf(),
            old(self).put_char_ok(),
        ensures
            final(self).wf(),
            exists|mid: Terminal| {
                &&& mid.wf()
                &&& (if old(self).cursor.col >= old(self).grid.num_cols() {
                        mid.newline_from(&Terminal::at_col(*old(self), 0))
                    } else {
                        mid == *old(self)
                    })
                &&& #[trigger] final(self).printed_from(&mid, c)
            },
    {
        self.put_char(c);
    }

    /// Handles an operating system command (OSC) split at `;`: commands `0` and `2` set the
    /// title to the second field (empty if it is not valid UTF-8); others are ignored.
    pub fn osc_dispatch(&mut self, params: &[&[u8]])
        requires
            old(self).wf(),
        ensures
            final(self).wf(),
            (params@.len() >= 2 && (params@[0]@ == seq![0x30u8] || params@[0]@ == seq![0x32u8])) ==> {
                &&& final(self).same_except(old(self), set![Part::Title])
                &&& final(self).title@ == (if vstd::utf8::valid_utf8(params@[1]@) {
                        vstd::utf8::decode_utf8(params@[1]@)
                    } else {
                        Seq::<char>::empty()
                    })
            },
            !(params@.len() >= 2 && (params@[0]@ == seq![0x30u8] || params@[0]@ == seq![0x32u8]))
                ==> final(self).same_except(old(self), Set::empty()),
    {
        if params.len() < 2 {
            return;
        }
        let command: &[u8] = params[0];
        let is_title = command.len() == 1 && (command[0] == 0x30u8 || command[0] == 0x32u8);
        proof {
            if is_title {
                assert(command@ =~= seq![command@[0]]);
            }
            if command@ == seq![0x30u8] || command@ == seq![0x32u8] {
                assert(command@.len() == 1);
            }
        }
        if is_title {
            self.title = match utf8_text(params[1]) {
                Some(s) => s,
                None => String::new(),
            };
        }
    }
}

/// Whether the SGR parameters `p` can be applied: every palette index they use can be looked up.
pub fn sgr_params_ok(params: &[u16]) -> (b: bool)
    ensures
        b == sgr_ok_from(params@, 0),
{
    let ghost p = params@;
    let n = params.len();
    let mut i: usize = 0;
    while i < n
        invariant
            n == p.len(),
            p == params@,
            i <= n + 4,
            sgr_ok_from(p, i as int) == sgr_ok_from(p, 0),
        decreases n + 4 - i,
    {
        let v = params[i];
        if (v == 38 || v == 48) && n - i > 1 {
            let kind = params[i + 1];
            if kind == 5 && n - i > 2 {
                let idx = params[i + 2] as usize;
                let ok = idx < 232 || ((idx - 232) as u8) <= 24;
                if !ok {
                    return false;
                }
                i = i + 3;
            } else if kind == 2 && n - i > 4 {
                i = i + 5;
            } else {
                i = i + 1;
            }
        } else {
            i = i + 1;
        }
    }
    true
}

impl Terminal {
    /// Whether `print` can be called now.
    pub fn can_print(&self) -> (b: bool)
        ensures
            b == self.put_char_ok(),
    {
        if self.cursor.col >= self.grid.cols() {
            self.grid.rows() > 0 || self.cursor.row == self.grid.scroll_bottom()
        } else {
            true
        }
    }

    /// Whether `execute` can be called now with `byte`.
    pub fn can_execute(&self, byte: u8) -> (b: bool)
        ensures
            b == self.execute_ok(byte),
    {
        if byte == 0x09 {
            self.grid.cols() > 0 && self.cursor.col <= usize::MAX - 8
        } else if byte == 0x0A {
            self.grid.rows() > 0 || self.cursor.row == self.grid.scroll_bottom()
        } else {
            true
        }
    }

    /// Whether `csi_dispatch` can be called now with `params` and `action`.
    pub fn can_dispatch_csi(&self, params: &[u16], action: char) -> (b: bool)
        ensures
            b == self.csi_ok(params@, action),
    {
        let v = param_or(params, 0, 1);
        let n: usize = if v > 1 { v as usize } else { 1 };
        let rows = self.grid.rows();
        let cols = self.grid.cols();
        let row = self.cursor.row;
        let col = self.cursor.col;
        if action == 'B' || action == 'E' {
            rows > 0 && n <= usize::MAX - row
        } else if action == 'C' {
            cols > 0 && n <= usize::MAX - col
        } else if action == 'H' || action == 'f' {
            rows > 0 && cols > 0
        } else if action == 'J' {
            let mode = param_or(params, 0, 0);
            if mode == 0 {
                row < usize::MAX && (row >= rows || col <= cols)
            } else if mode == 1 {
                row >= rows || cols > 0
            } else {
                true
            }
        } else if action == 'K' {
            let mode = param_or(params, 0, 0);
            if mode == 0 {
                row >= rows || col <= cols
            } else if mode == 1 {
                row >= rows || cols > 0
            } else {
                true
            }
        } else if action == 'r' {
            let top = param_or(params, 0, 1);
            let bottom: u64 = if params.len() > 1 { params[1] as u64 } else { rows as u64 };
            !(top < bottom && bottom <= rows as u64) || top >= 1
        } else if action == 'm' {
            sgr_params_ok(params)
        } else {
            true
        }
    }
}

} // verus!
