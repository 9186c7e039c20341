use vstd::prelude::*;
use crate::cell::{Cell, Color};
use crate::damage::{DamageTracker, indices_where, lemma_indices_where};
use crate::grid::Grid;
use crate::terminal::{Terminal, Part, Pen, spec_sgr};
use crate::cell::CellFlags;
use crate::selection::{Selection, SelectionPos, pos_le, word_unit, spec_normalize_to_lead, lead_at,
    scan_left, scan_right, spec_logical_end_col, spec_classify_cell, TokenClass};
use crate::search::{next_index, previous_index, occurrences_from, occurs_at};
use crate::ui::{ThemePreset, preset_after, truncated};
use crate::shortcuts::{default_map, key_name, configured_map, action_named, shortcut_from_text, ShortcutAction};
use crate::text::{case_lower, case_upper};
use crate::palette::spec_ansi_color;
use crate::input::{MouseButton, TermKey, key_bytes, MouseReportKind, spec_mouse_report, mouse_modifiers};
use crate::encode::decimal;
use crate::config::{color_text_panics, color_from_hex, color_digits, hex_value};

verus! {

/// Entering the alternate screen and leaving it again gives back the primary screen, its
/// cursor and its saved cursor, and leaves every mode and attribute as it was.
pub proof fn law_alternate_screen_round_trip(t0: Terminal, t1: Terminal, t2: Terminal)
    requires
        !t0.alt_active(),
        t1.entered_alt_from(&t0, Set::empty(), t0.saved()),
        t2.left_alt_from(&t1, Set::empty()),
    ensures
        !t2.alt_active(),
        t2.grid == t0.grid,
        t2.cursor == t0.cursor,
        t2.saved() == t0.saved(),
        t2.same_except(&t0, set![Part::Alt, Part::Preedit, Part::Selection, Part::Damage]),
        t2.damage.len() == t0.damage.len(),
{
    assert(Set::<Part>::empty() + set![Part::Grid, Part::Cursor, Part::Saved, Part::Alt,
        Part::Preedit, Part::Selection, Part::Damage] =~= set![Part::Grid, Part::Cursor, Part::Saved, Part::Alt,
        Part::Preedit, Part::Selection, Part::Damage]);
}

/// Setting private mode 1049 and resetting it again gives back the primary screen and puts
/// the cursor back where it was; the saved cursor is left holding that position, and the set
/// of private modes is as before when 1049 was not in it.
pub proof fn law_mode_1049_round_trip(t0: Terminal, t1: Terminal, t2: Terminal)
    requires
        !t0.alt_active(),
        t1.private_mode_set() == t0.private_mode_set().insert(1049),
        t1.set_private_mode_effect(&t0, 1049),
        t2.private_mode_set() == t1.private_mode_set().remove(1049),
        t2.unset_private_mode_effect(&t1, 1049),
    ensures
        !t2.alt_active(),
        t2.grid == t0.grid,
        t2.cursor == t0.cursor,
        t2.saved() == t0.cursor,
        !t0.private_mode_set().contains(1049) ==> t2.private_mode_set() == t0.private_mode_set(),
{
    assert(t1.alt_active());
    if !t0.private_mode_set().contains(1049) {
        assert(t2.private_mode_set() =~= t0.private_mode_set());
    }
}

/// A cell written inside the screen is read back as written, and every other cell keeps
/// what it held.
pub proof fn law_write_then_read(g0: Grid, g1: Grid, row: usize, col: usize, cell: Cell, r: int, c: int)
    requires
        g0.wf(),
        row < g0.num_rows(),
        col < g0.num_cols(),
        g1.lines_view() == g0.lines_view().update(row as int, g0.lines_view()[row as int].update(col as int, cell)),
        0 <= r < g0.num_rows(),
        0 <= c < g0.num_cols(),
    ensures
        g1.lines_view()[r][c] == (if r == row && c == col { cell } else { g0.lines_view()[r][c] }),
{
    g0.lemma_wf();
}

/// Scrolling up never lets the history grow past its limit.
pub proof fn law_history_stays_within_limit(g0: Grid, g1: Grid)
    requires
        g0.scrollback_view().len() <= g0.limit(),
        g1.is_scrolled_up_from(&g0),
    ensures
        g1.scrollback_view().len() <= g1.limit(),
{
}

/// Resizing never lets the history grow past its limit, whatever it held before: rows cut
/// from the bottom join it and the oldest rows beyond the limit leave.
pub proof fn law_resize_keeps_history_within_limit(g0: Grid, g1: Grid, new_rows: usize, new_cols: usize)
    requires
        g0.wf(),
        g1.scrollback_view() == g0.resized_history(new_rows, new_cols),
    ensures
        g1.scrollback_view().len() <= g0.limit(),
{
    g0.lemma_wf();
}

/// A well-formed grid never holds more history than its limit. Every grid operation keeps
/// its grid well formed, so no run of scrolls, resizes or history pushes outgrows the limit.
pub proof fn law_history_never_exceeds_limit(g: Grid)
    requires
        g.wf(),
    ensures
        g.scrollback_view().len() <= g.limit(),
{
    g.lemma_wf();
}

/// After clearing, nothing is damaged; marking a row afterwards damages it.
pub proof fn law_clear_then_mark(d1: DamageTracker, d2: DamageTracker, row: usize)
    requires
        !d1.full(),
        d1.rows_view() == Seq::new(d1.len(), |i: int| false),
        row < d1.len(),
        d2.len() == d1.len(),
        d2.full() == d1.full(),
        d2.rows_view() == d1.rows_view().update(row as int, true),
    ensures
        !(d1.full() || exists|i: int| 0 <= i < d1.len() && d1.rows_view()[i]),
        d2.full() || exists|i: int| 0 <= i < d2.len() && d2.rows_view()[i],
        forall|i: int| 0 <= i < d2.len() ==> (d2.rows_view()[i] <==> i == row),
{
    assert(d2.rows_view()[row as int]);
}

/// Marking a row of any tracker damages that row, so the tracker is dirty and the row is
/// listed among the dirty rows, and leaves every other row's damage as it was.
pub proof fn law_marked_row_is_reported(d1: DamageTracker, d2: DamageTracker, row: usize)
    requires
        d1.wf(),
        row < d1.len(),
        d2.len() == d1.len(),
        d2.full() == d1.full(),
        d2.rows_view() == d1.rows_view().update(row as int, true),
    ensures
        d2.full() || exists|i: int| 0 <= i < d2.len() && d2.rows_view()[i],
        indices_where(d2.len(), |i: int| d2.row_damaged(i)).contains(row),
        forall|i: int| 0 <= i < d2.len() && i != row ==> (d2.row_damaged(i) <==> d1.row_damaged(i)),
{
    d1.lemma_wf();
    assert(d2.rows_view()[row as int]);
    let pred = |i: int| d2.row_damaged(i);
    lemma_indices_where(d2.len(), pred);
    assert(pred(row as int));
    assert(indices_where(d2.len(), pred).contains(row as usize));
}

/// Three steps of the theme cycle come back to the start, and no step stays put.
pub proof fn law_theme_cycle(p: ThemePreset)
    ensures
        preset_after(preset_after(preset_after(p))) == p,
        preset_after(p) != p,
{
}

/// Moving back after moving forward, or forward after moving back, selects the same match.
pub proof fn law_navigation_undo(i: usize, n: nat)
    requires
        i < n,
        n <= usize::MAX,
    ensures
        previous_index(next_index(Some(i), n), n) == Some(i),
        next_index(previous_index(Some(i), n), n) == Some(i),
{
    if i + 1 < n {
        vstd::arithmetic::div_mod::lemma_small_mod((i + 1) as nat, n);
    } else {
        assert((i + 1) % (n as int) == 0) by {
            assert(i + 1 == n);
        }
    }
    if i == 0 {
        assert(((n - 1) + 1) % (n as int) == 0) by {
            assert((n - 1) + 1 == n);
        }
    } else {
        vstd::arithmetic::div_mod::lemma_small_mod(i as nat, n);
    }
}

/// Packing three channels as `0xRRGGBB` and splitting the value gives the channels back.
pub proof fn law_color_channels_round_trip(r: u8, g: u8, b: u8)
    ensures
        Color::spec_from_u32(((r as u32) * 0x10000 + (g as u32) * 0x100 + (b as u32)) as u32) == (Color { r, g, b }),
{
    let x: int = r * 0x10000 + g * 0x100 + b;
    assert(0 <= x < 0x1000000) by (nonlinear_arith)
        requires x == r * 0x10000 + g * 0x100 + b, r < 256, g < 256, b < 256;
    assert(x / 0x10000 == r && (x / 0x10000) % 0x100 == r) by (nonlinear_arith)
        requires x == r * 0x10000 + g * 0x100 + b, r < 256, g < 256, b < 256;
    assert(x / 0x100 == r * 0x100 + g && (x / 0x100) % 0x100 == g) by (nonlinear_arith)
        requires x == r * 0x10000 + g * 0x100 + b, r < 256, g < 256, b < 256;
    assert(x % 0x100 == b) by (nonlinear_arith)
        requires x == r * 0x10000 + g * 0x100 + b, r < 256, g < 256, b < 256;
}

/// A selection holds both of its endpoints and every position between them.
pub proof fn law_selection_holds_its_span(s: Selection, p: SelectionPos)
    requires
        pos_le(s.spec_start(), s.spec_end()),
    ensures
        pos_le(s.spec_start(), s.spec_start()) && pos_le(s.spec_start(), s.spec_end()),
        pos_le(s.spec_start(), s.spec_end()) && pos_le(s.spec_end(), s.spec_end()),
        pos_le(s.spec_start(), p) && pos_le(p, s.spec_end()) ==> p.row >= s.spec_start().row && p.row <= s.spec_end().row,
{
}

proof fn lemma_scan_left_le(line: Seq<Cell>, col: int, class: TokenClass)
    ensures
        scan_left(line, col, class) <= col,
    decreases col,
{
    if col > 0 {
        let prev = lead_at(line, col - 1);
        if 0 <= prev < col && spec_classify_cell(line, prev) == Some(class) {
            lemma_scan_left_le(line, prev, class);
        }
    }
}

proof fn lemma_scan_right_ge(line: Seq<Cell>, col: int, class: TokenClass)
    ensures
        scan_right(line, col, class) >= col,
    decreases line.len() - col,
{
    if 0 <= col < line.len() {
        let next = spec_logical_end_col(line, col) + 1;
        if next < line.len() && spec_classify_cell(line, next) == Some(class) {
            lemma_scan_right_ge(line, next, class);
        }
    }
}

/// The run a double click selects contains the character under the click.
pub proof fn law_word_contains_click(line: Seq<Cell>, col: usize)
    ensures
        word_unit(line, col) matches Some((a, b)) ==> a <= spec_normalize_to_lead(line, col as int) <= b,
{
    let anchor = spec_normalize_to_lead(line, col as int);
    match spec_classify_cell(line, anchor) {
        None => {},
        Some(class) => {
            lemma_scan_left_le(line, anchor, class);
            lemma_scan_right_ge(line, anchor, class);
        },
    }
}

/// A cut text never exceeds the allowed length (when that leaves room for the marker), and a
/// text that fits is left alone.
pub proof fn law_truncation_fits(text: Seq<char>, max_chars: nat)
    ensures
        max_chars >= 3 ==> truncated(text, max_chars).len() <= max_chars,
        text.len() <= max_chars ==> truncated(text, max_chars) == text,
{
    reveal_strlit("...");
}

/// A configured binding whose action and shortcut parse overrides whatever that shortcut
/// had before.
pub proof fn law_configured_binding_wins(
    base: Map<(Seq<char>, bool, bool, bool), ShortcutAction>,
    entries: Seq<(Seq<char>, Seq<char>)>,
    action: Seq<char>,
    shortcut: Seq<char>,
)
    requires
        action_named(case_lower(action)) is Some,
        shortcut_from_text(shortcut) is Some,
    ensures
        configured_map(base, entries.push((action, shortcut)))[shortcut_from_text(shortcut)->0]
            == action_named(case_lower(action))->0,
        configured_map(base, entries.push((action, shortcut))).contains_key(shortcut_from_text(shortcut)->0),
{
    assert(entries.push((action, shortcut)).drop_last() =~= entries);
}

/// SGR with no parameters, or with a lone 0, resets the drawing attributes to the terminal's
/// default colours with no flags, whatever they were.
pub proof fn law_sgr_reset(pen: Pen, dfg: Color, dbg: Color)
    ensures
        spec_sgr(pen, dfg, dbg, Seq::empty()) == (Pen { foreground: dfg, background: dbg, flags: CellFlags(0) }),
        spec_sgr(pen, dfg, dbg, seq![0u16]) == (Pen { foreground: dfg, background: dbg, flags: CellFlags(0) }),
{
    let p = seq![0u16];
    assert(crate::terminal::sgr_from(Pen { foreground: dfg, background: dbg, flags: CellFlags(0) }, dfg, dbg, p, 1)
        == (Pen { foreground: dfg, background: dbg, flags: CellFlags(0) }));
}

/// Setting a standard mode and resetting it leaves the set of modes as it was when the mode
/// was not set before.
pub proof fn law_mode_round_trip(t0: Terminal, t1: Terminal, t2: Terminal, mode: u16)
    requires
        t1.mode_set() == t0.mode_set().insert(mode),
        t2.mode_set() == t1.mode_set().remove(mode),
    ensures
        t1.mode_set().contains(mode),
        !t2.mode_set().contains(mode),
        !t0.mode_set().contains(mode) ==> t2.mode_set() == t0.mode_set(),
{
    if !t0.mode_set().contains(mode) {
        assert(t2.mode_set() =~= t0.mode_set());
    }
}

/// The positions a literal search lists from `p` on are exactly the occurrences at or after
/// `p`, each once, in increasing order.
proof fn lemma_occurrences_from(t: Seq<u8>, q: Seq<u8>, p: int)
    requires
        0 <= p,
    ensures
        forall|k: int| occurrences_from(t, q, p).contains(k) <==> (p <= k && occurs_at(t, q, k)),
        forall|i: int, j: int| 0 <= i < j < occurrences_from(t, q, p).len()
            ==> occurrences_from(t, q, p)[i] < occurrences_from(t, q, p)[j],
        forall|i: int| 0 <= i < occurrences_from(t, q, p).len() ==> p <= occurrences_from(t, q, p)[i],
    decreases t.len() + 1 - p,
{
    if p + q.len() > t.len() {
        assert forall|k: int| p <= k && occurs_at(t, q, k) implies false by {}
    } else {
        lemma_occurrences_from(t, q, p + 1);
        let rest = occurrences_from(t, q, p + 1);
        if occurs_at(t, q, p) {
            let all = seq![p] + rest;
            assert forall|k: int| all.contains(k) <==> (p <= k && occurs_at(t, q, k)) by {
                if all.contains(k) {
                    let i = choose|i: int| 0 <= i < all.len() && all[i] == k;
                    if i > 0 {
                        assert(rest[i - 1] == k);
                        assert(rest.contains(k));
                    }
                }
                if p <= k && occurs_at(t, q, k) {
                    if k == p {
                        assert(all[0] == k);
                    } else {
                        assert(rest.contains(k));
                        let i = choose|i: int| 0 <= i < rest.len() && rest[i] == k;
                        assert(all[i + 1] == k);
                    }
                }
            }
            assert forall|i: int, j: int| 0 <= i < j < all.len() implies all[i] < all[j] by {
                if i > 0 {
                    assert(all[i] == rest[i - 1]);
                }
                assert(all[j] == rest[j - 1]);
            }
        } else {
            assert forall|k: int| rest.contains(k) <==> (p <= k && occurs_at(t, q, k)) by {
                if k == p {
                    assert(!occurs_at(t, q, k));
                }
            }
        }
    }
}

/// A literal search reports every occurrence of the query in a row's text, overlapping ones
/// included, each once and from left to right, and nothing else.
pub proof fn law_literal_search_finds_exactly_the_occurrences(t: Seq<u8>, q: Seq<u8>)
    ensures
        forall|k: int| occurrences_from(t, q, 0).contains(k) <==> occurs_at(t, q, k),
        forall|i: int, j: int| 0 <= i < j < occurrences_from(t, q, 0).len()
            ==> occurrences_from(t, q, 0)[i] < occurrences_from(t, q, 0)[j],
{
    lemma_occurrences_from(t, q, 0);
}


/// SGR colour codes change one channel of the pen and nothing else: `30`-`37` and `90`-`97`
/// set the foreground to the normal or bright palette colour, `40`-`47` and `100`-`107` the
/// background, `39` and `49` restore the default foreground or background.
pub proof fn law_sgr_color_codes(pen: Pen, dfg: Color, dbg: Color, v: u16)
    ensures
        30 <= v <= 37 ==> spec_sgr(pen, dfg, dbg, seq![v])
            == (Pen { foreground: spec_ansi_color(v - 30), background: pen.background, flags: pen.flags }),
        40 <= v <= 47 ==> spec_sgr(pen, dfg, dbg, seq![v])
            == (Pen { foreground: pen.foreground, background: spec_ansi_color(v - 40), flags: pen.flags }),
        90 <= v <= 97 ==> spec_sgr(pen, dfg, dbg, seq![v])
            == (Pen { foreground: spec_ansi_color(v - 82), background: pen.background, flags: pen.flags }),
        100 <= v <= 107 ==> spec_sgr(pen, dfg, dbg, seq![v])
            == (Pen { foreground: pen.foreground, background: spec_ansi_color(v - 92), flags: pen.flags }),
        v == 39 ==> spec_sgr(pen, dfg, dbg, seq![v])
            == (Pen { foreground: dfg, background: pen.background, flags: pen.flags }),
        v == 49 ==> spec_sgr(pen, dfg, dbg, seq![v])
            == (Pen { foreground: pen.foreground, background: dbg, flags: pen.flags }),
{
    let p = seq![v];
    let next = crate::terminal::sgr_simple(pen, dfg, dbg, v);
    assert(crate::terminal::sgr_from(next, dfg, dbg, p, 1) == next);
    assert(crate::terminal::sgr_from(pen, dfg, dbg, p, 0) == crate::terminal::sgr_from(next, dfg, dbg, p, 1));
}

/// The arrow keys send `ESC [` (or `ESC O` when the application asked for cursor-key mode)
/// followed by `A`, `B`, `C`, `D` for up, down, right, left, with an extra `ESC` in front when
/// Alt is held, whatever text and other modifiers come with the press; so no two arrow keys
/// send the same bytes.
pub proof fn law_arrow_keys(text: Option<Seq<char>>, shift: bool, ctrl: bool, alt: bool, app_cursor: bool, keypad: bool)
    ensures
        ({
            let pre: Seq<u8> = if alt { seq![0x1Bu8] } else { Seq::empty() };
            let intro: u8 = if app_cursor { 0x4Fu8 } else { 0x5Bu8 };
            &&& key_bytes(TermKey::ArrowUp, text, shift, ctrl, alt, app_cursor, keypad) == Some(pre + seq![0x1Bu8, intro, 0x41u8])
            &&& key_bytes(TermKey::ArrowDown, text, shift, ctrl, alt, app_cursor, keypad) == Some(pre + seq![0x1Bu8, intro, 0x42u8])
            &&& key_bytes(TermKey::ArrowRight, text, shift, ctrl, alt, app_cursor, keypad) == Some(pre + seq![0x1Bu8, intro, 0x43u8])
            &&& key_bytes(TermKey::ArrowLeft, text, shift, ctrl, alt, app_cursor, keypad) == Some(pre + seq![0x1Bu8, intro, 0x44u8])
        }),
        forall|a: TermKey, b: TermKey| is_arrow(a) && is_arrow(b) && a != b ==>
            key_bytes(a, text, shift, ctrl, alt, app_cursor, keypad) != key_bytes(b, text, shift, ctrl, alt, app_cursor, keypad),
{
    let pre: Seq<u8> = if alt { seq![0x1Bu8] } else { Seq::empty() };
    let intro: u8 = if app_cursor { 0x4Fu8 } else { 0x5Bu8 };
    let n = pre.len() as int;
    assert(key_bytes(TermKey::ArrowUp, text, shift, ctrl, alt, app_cursor, keypad) =~= Some(pre + seq![0x1Bu8, intro, 0x41u8]));
    assert(key_bytes(TermKey::ArrowDown, text, shift, ctrl, alt, app_cursor, keypad) =~= Some(pre + seq![0x1Bu8, intro, 0x42u8]));
    assert(key_bytes(TermKey::ArrowRight, text, shift, ctrl, alt, app_cursor, keypad) =~= Some(pre + seq![0x1Bu8, intro, 0x43u8]));
    assert(key_bytes(TermKey::ArrowLeft, text, shift, ctrl, alt, app_cursor, keypad) =~= Some(pre + seq![0x1Bu8, intro, 0x44u8]));
    assert forall|a: TermKey, b: TermKey| is_arrow(a) && is_arrow(b) && a != b implies
        key_bytes(a, text, shift, ctrl, alt, app_cursor, keypad) != key_bytes(b, text, shift, ctrl, alt, app_cursor, keypad) by {
        let ka = key_bytes(a, text, shift, ctrl, alt, app_cursor, keypad)->0;
        let kb = key_bytes(b, text, shift, ctrl, alt, app_cursor, keypad)->0;
        assert(ka[n + 2] != kb[n + 2]);
    }
}

/// Whether `k` is one of the four arrow keys.
pub open spec fn is_arrow(k: TermKey) -> bool {
    k == TermKey::ArrowUp || k == TermKey::ArrowDown || k == TermKey::ArrowRight || k == TermKey::ArrowLeft
}

/// The wheel is reported as button 64 when it turns up and 65 when it turns down, plus 4 for
/// Shift, 8 for Alt and 16 for Ctrl: in the SGR form as that number in decimal, in the legacy
/// form as that number plus 32. So a wheel-up report never reads as a wheel-down one.
pub proof fn law_wheel_reports(row: usize, col: usize, shift: bool, alt: bool, ctrl: bool)
    requires
        row < 222,
        col < 222,
    ensures
        ({
            let m: nat = (if shift { 4nat } else { 0nat }) + (if alt { 8nat } else { 0nat }) + (if ctrl { 16nat } else { 0nat });
            let tail = seq![0x3Bu8] + decimal((col + 1) as nat) + seq![0x3Bu8] + decimal((row + 1) as nat) + seq![0x4Du8];
            &&& spec_mouse_report(MouseReportKind::WheelUp, row, col, true, shift, alt, ctrl)
                == Some(seq![0x1Bu8, 0x5Bu8, 0x3Cu8] + decimal(64 + m) + tail)
            &&& spec_mouse_report(MouseReportKind::WheelDown, row, col, true, shift, alt, ctrl)
                == Some(seq![0x1Bu8, 0x5Bu8, 0x3Cu8] + decimal(65 + m) + tail)
            &&& spec_mouse_report(MouseReportKind::WheelUp, row, col, false, shift, alt, ctrl)
                == Some(seq![0x1Bu8, 0x5Bu8, 0x4Du8, (96 + m) as u8, (col + 33) as u8, (row + 33) as u8])
            &&& spec_mouse_report(MouseReportKind::WheelDown, row, col, false, shift, alt, ctrl)
                == Some(seq![0x1Bu8, 0x5Bu8, 0x4Du8, (97 + m) as u8, (col + 33) as u8, (row + 33) as u8])
        }),
        forall|sgr: bool| spec_mouse_report(MouseReportKind::WheelUp, row, col, sgr, shift, alt, ctrl)
            != spec_mouse_report(MouseReportKind::WheelDown, row, col, sgr, shift, alt, ctrl),
{
    let m: nat = (if shift { 4nat } else { 0nat }) + (if alt { 8nat } else { 0nat }) + (if ctrl { 16nat } else { 0nat });
    lemma_wheel_sgr(row, col, shift, alt, ctrl, m);
    lemma_wheel_legacy(row, col, shift, alt, ctrl, m);
}

/// The SGR wheel reports, and that the two differ.
proof fn lemma_wheel_sgr(row: usize, col: usize, shift: bool, alt: bool, ctrl: bool, m: nat)
    requires
        row < 222,
        col < 222,
        m == (if shift { 4nat } else { 0nat }) + (if alt { 8nat } else { 0nat }) + (if ctrl { 16nat } else { 0nat }),
    ensures
        ({
            let tail = seq![0x3Bu8] + decimal((col + 1) as nat) + seq![0x3Bu8] + decimal((row + 1) as nat) + seq![0x4Du8];
            &&& spec_mouse_report(MouseReportKind::WheelUp, row, col, true, shift, alt, ctrl)
                == Some(seq![0x1Bu8, 0x5Bu8, 0x3Cu8] + decimal(64 + m) + tail)
            &&& spec_mouse_report(MouseReportKind::WheelDown, row, col, true, shift, alt, ctrl)
                == Some(seq![0x1Bu8, 0x5Bu8, 0x3Cu8] + decimal(65 + m) + tail)
        }),
        spec_mouse_report(MouseReportKind::WheelUp, row, col, true, shift, alt, ctrl)
            != spec_mouse_report(MouseReportKind::WheelDown, row, col, true, shift, alt, ctrl),
{
    let tail = seq![0x3Bu8] + decimal((col + 1) as nat) + seq![0x3Bu8] + decimal((row + 1) as nat) + seq![0x4Du8];
    let head = seq![0x1Bu8, 0x5Bu8, 0x3Cu8];
    lemma_sgr_wheel_bytes(MouseReportKind::WheelUp, 64, row, col, shift, alt, ctrl, m);
    lemma_sgr_wheel_bytes(MouseReportKind::WheelDown, 65, row, col, shift, alt, ctrl, m);
    lemma_two_digits(64 + m);
    lemma_two_digits(65 + m);
    lemma_index_after_head(head, decimal(64 + m), tail);
    lemma_index_after_head(head, decimal(65 + m), tail);
}

/// The SGR report of a wheel turn with button value `b`.
proof fn lemma_sgr_wheel_bytes(kind: MouseReportKind, b: nat, row: usize, col: usize, shift: bool, alt: bool, ctrl: bool, m: nat)
    requires
        kind == MouseReportKind::WheelUp || kind == MouseReportKind::WheelDown,
        b == (if kind == MouseReportKind::WheelUp { 64nat } else { 65nat }),
        row < 222,
        col < 222,
        m == (if shift { 4nat } else { 0nat }) + (if alt { 8nat } else { 0nat }) + (if ctrl { 16nat } else { 0nat }),
    ensures
        spec_mouse_report(kind, row, col, true, shift, alt, ctrl) == Some(seq![0x1Bu8, 0x5Bu8, 0x3Cu8] + decimal(b + m)
            + (seq![0x3Bu8] + decimal((col + 1) as nat) + seq![0x3Bu8] + decimal((row + 1) as nat) + seq![0x4Du8])),
{
    assert(mouse_modifiers(shift, alt, ctrl) == m);
    assert(crate::input::report_base(kind) == Some(b as usize));
    let ghost base: usize = (b + m) as usize;
    assert(base as nat == b + m);
    let r = seq![0x1Bu8, 0x5Bu8, 0x3Cu8] + decimal(base as nat) + seq![0x3Bu8] + decimal((col + 1) as nat)
        + seq![0x3Bu8] + decimal((row + 1) as nat) + seq![0x4Du8];
    assert(r =~= seq![0x1Bu8, 0x5Bu8, 0x3Cu8] + decimal(b + m)
            + (seq![0x3Bu8] + decimal((col + 1) as nat) + seq![0x3Bu8] + decimal((row + 1) as nat) + seq![0x4Du8]));
}

/// The element at index 4 of `head + d + tail`, for a three-byte head and a two-byte `d`.
proof fn lemma_index_after_head(head: Seq<u8>, d: Seq<u8>, tail: Seq<u8>)
    requires
        head.len() == 3,
        d.len() == 2,
    ensures
        (head + d + tail)[4] == d[1],
{
    assert((head + d)[4] == d[1]);
}

/// The legacy wheel reports, and that the two differ.
proof fn lemma_wheel_legacy(row: usize, col: usize, shift: bool, alt: bool, ctrl: bool, m: nat)
    requires
        row < 222,
        col < 222,
        m == (if shift { 4nat } else { 0nat }) + (if alt { 8nat } else { 0nat }) + (if ctrl { 16nat } else { 0nat }),
    ensures
        spec_mouse_report(MouseReportKind::WheelUp, row, col, false, shift, alt, ctrl)
            == Some(seq![0x1Bu8, 0x5Bu8, 0x4Du8, (96 + m) as u8, (col + 33) as u8, (row + 33) as u8]),
        spec_mouse_report(MouseReportKind::WheelDown, row, col, false, shift, alt, ctrl)
            == Some(seq![0x1Bu8, 0x5Bu8, 0x4Du8, (97 + m) as u8, (col + 33) as u8, (row + 33) as u8]),
        spec_mouse_report(MouseReportKind::WheelUp, row, col, false, shift, alt, ctrl)
            != spec_mouse_report(MouseReportKind::WheelDown, row, col, false, shift, alt, ctrl),
{
    assert(mouse_modifiers(shift, alt, ctrl) == m);
    let up = seq![0x1Bu8, 0x5Bu8, 0x4Du8, (96 + m) as u8, (col + 33) as u8, (row + 33) as u8];
    let down = seq![0x1Bu8, 0x5Bu8, 0x4Du8, (97 + m) as u8, (col + 33) as u8, (row + 33) as u8];
    assert(spec_mouse_report(MouseReportKind::WheelUp, row, col, false, shift, alt, ctrl) =~= Some(up));
    assert(spec_mouse_report(MouseReportKind::WheelDown, row, col, false, shift, alt, ctrl) =~= Some(down));
    assert(up[3] != down[3]);
}

/// A number from 10 to 99 is written with two digits, the last one its remainder by ten.
proof fn lemma_two_digits(n: nat)
    requires
        10 <= n < 100,
    ensures
        decimal(n).len() == 2,
        decimal(n)[1] == (48 + n % 10) as u8,
{
    assert(decimal(n) == decimal(n / 10).push((48 + n % 10) as u8));
    assert(n / 10 < 10);
    assert(decimal(n / 10).len() == 1);
}

/// Whether `c` is a hexadecimal digit.
pub open spec fn is_hex_digit(c: char) -> bool {
    ('0' <= c <= '9') || ('a' <= c <= 'f') || ('A' <= c <= 'F')
}

/// The value of hexadecimal digit `c`.
pub open spec fn digit_value(c: char) -> int {
    if '0' <= c <= '9' {
        c as int - '0' as int
    } else if 'a' <= c <= 'f' {
        c as int - 'a' as int + 10
    } else {
        c as int - 'A' as int + 10
    }
}

/// `#RRGGBB` reads as the colour whose red, green and blue channels are the first, second
/// and third pair of hexadecimal digits, each pair read high digit first; reading it never
/// cuts a character in two.
pub proof fn law_hex_color_channels(d: Seq<char>)
    requires
        d.len() == 6,
        forall|i: int| 0 <= i < 6 ==> is_hex_digit(#[trigger] d[i]),
    ensures
        !color_text_panics(seq!['#'] + d),
        color_from_hex(seq!['#'] + d) == Some(Color {
            r: (16 * digit_value(d[0]) + digit_value(d[1])) as u8,
            g: (16 * digit_value(d[2]) + digit_value(d[3])) as u8,
            b: (16 * digit_value(d[4]) + digit_value(d[5])) as u8,
        }),
{
    let s = seq!['#'] + d;
    assert(s.drop_first() =~= d);
    assert(vstd::utf8::is_ascii_chars(d));
    vstd::utf8::is_ascii_chars_encode_utf8(d);
    let b = color_digits(s);
    assert(b.len() == 6);
    assert forall|i: int| 0 <= i < 6 implies (#[trigger] b[i]) == d[i] as u8 && hex_value(b[i]) == Some(digit_value(d[i]) as u8) by {
        assert(d[i] as u8 == b[i]);
        assert(is_hex_digit(d[i]));
    }
    assert(hex_value(b[0]) == Some(digit_value(d[0]) as u8));
    assert(hex_value(b[1]) == Some(digit_value(d[1]) as u8));
    assert(hex_value(b[2]) == Some(digit_value(d[2]) as u8));
    assert(hex_value(b[3]) == Some(digit_value(d[3]) as u8));
    assert(hex_value(b[4]) == Some(digit_value(d[4]) as u8));
    assert(hex_value(b[5]) == Some(digit_value(d[5]) as u8));
}

/// The default bindings with each key spelled out character by character.
spec fn bindings_spelled_out() -> Map<(Seq<char>, bool, bool, bool), ShortcutAction> {
    Map::empty()
        .insert((seq!['C'], true, true, false), ShortcutAction::Copy)
        .insert((seq!['V'], true, true, false), ShortcutAction::Paste)
        .insert((seq!['T'], true, true, false), ShortcutAction::NewTab)
        .insert((seq!['W'], true, true, false), ShortcutAction::CloseTab)
        .insert((seq!['T', 'A', 'B'], true, false, false), ShortcutAction::NextTab)
        .insert((seq!['T', 'A', 'B'], true, true, false), ShortcutAction::PreviousTab)
        .insert((seq!['E', 'Q', 'U', 'A', 'L'], true, false, false), ShortcutAction::IncreaseFontSize)
        .insert((seq!['M', 'I', 'N', 'U', 'S'], true, false, false), ShortcutAction::DecreaseFontSize)
        .insert((seq!['0'], true, false, false), ShortcutAction::ResetFontSize)
        .insert((seq!['C', 'O', 'M', 'M', 'A'], true, false, false), ShortcutAction::ToggleSettings)
        .insert((seq!['P'], true, true, false), ShortcutAction::SwitchTheme)
        .insert((seq!['F'], true, false, false), ShortcutAction::Search)
        .insert((seq!['F', '3'], false, false, false), ShortcutAction::SearchNext)
        .insert((seq!['F', '3'], false, true, false), ShortcutAction::SearchPrevious)
}

/// Looking a key up after an insertion.
proof fn lemma_insert_get<K, V>(m: Map<K, V>, k: K, v: V, q: K)
    ensures
        m.insert(k, v).get(q) == (if k == q { Some(v) } else { m.get(q) }),
{
    if k == q {
        assert(m.insert(k, v).dom().contains(q));
    } else if m.dom().contains(q) {
        assert(m.insert(k, v).dom().contains(q));
    } else {
        assert(!m.insert(k, v).dom().contains(q));
    }
}

/// Looking up each default binding in the spelled-out map.
proof fn lemma_spelled_out_lookups()
    ensures
        bindings_spelled_out().get((seq!['C'], true, true, false)) == Some(ShortcutAction::Copy),
        bindings_spelled_out().get((seq!['V'], true, true, false)) == Some(ShortcutAction::Paste),
        bindings_spelled_out().get((seq!['T'], true, true, false)) == Some(ShortcutAction::NewTab),
        bindings_spelled_out().get((seq!['W'], true, true, false)) == Some(ShortcutAction::CloseTab),
        bindings_spelled_out().get((seq!['T', 'A', 'B'], true, false, false)) == Some(ShortcutAction::NextTab),
        bindings_spelled_out().get((seq!['T', 'A', 'B'], true, true, false)) == Some(ShortcutAction::PreviousTab),
        bindings_spelled_out().get((seq!['E', 'Q', 'U', 'A', 'L'], true, false, false)) == Some(ShortcutAction::IncreaseFontSize),
        bindings_spelled_out().get((seq!['M', 'I', 'N', 'U', 'S'], true, false, false)) == Some(ShortcutAction::DecreaseFontSize),
        bindings_spelled_out().get((seq!['0'], true, false, false)) == Some(ShortcutAction::ResetFontSize),
        bindings_spelled_out().get((seq!['C', 'O', 'M', 'M', 'A'], true, false, false)) == Some(ShortcutAction::ToggleSettings),
        bindings_spelled_out().get((seq!['P'], true, true, false)) == Some(ShortcutAction::SwitchTheme),
        bindings_spelled_out().get((seq!['F'], true, false, false)) == Some(ShortcutAction::Search),
        bindings_spelled_out().get((seq!['F', '3'], false, false, false)) == Some(ShortcutAction::SearchNext),
        bindings_spelled_out().get((seq!['F', '3'], false, true, false)) == Some(ShortcutAction::SearchPrevious),
        bindings_spelled_out().dom().len() == 14,
{
    assert(seq!['C'] != seq!['V']) by { assert(seq!['C'][0] != seq!['V'][0]); }
    assert(seq!['C'] != seq!['T']) by { assert(seq!['C'][0] != seq!['T'][0]); }
    assert(seq!['C'] != seq!['W']) by { assert(seq!['C'][0] != seq!['W'][0]); }
    assert(seq!['C'] != seq!['T', 'A', 'B']) by { assert(seq!['C'].len() != seq!['T', 'A', 'B'].len()); }
    assert(seq!['C'] != seq!['E', 'Q', 'U', 'A', 'L']) by { assert(seq!['C'].len() != seq!['E', 'Q', 'U', 'A', 'L'].len()); }
    assert(seq!['C'] != seq!['M', 'I', 'N', 'U', 'S']) by { assert(seq!['C'].len() != seq!['M', 'I', 'N', 'U', 'S'].len()); }
    assert(seq!['C'] != seq!['0']) by { assert(seq!['C'][0] != seq!['0'][0]); }
    assert(seq!['C'] != seq!['C', 'O', 'M', 'M', 'A']) by { assert(seq!['C'].len() != seq!['C', 'O', 'M', 'M', 'A'].len()); }
    assert(seq!['C'] != seq!['P']) by { assert(seq!['C'][0] != seq!['P'][0]); }
    assert(seq!['C'] != seq!['F']) by { assert(seq!['C'][0] != seq!['F'][0]); }
    assert(seq!['C'] != seq!['F', '3']) by { assert(seq!['C'].len() != seq!['F', '3'].len()); }
    assert(seq!['V'] != seq!['T']) by { assert(seq!['V'][0] != seq!['T'][0]); }
    assert(seq!['V'] != seq!['W']) by { assert(seq!['V'][0] != seq!['W'][0]); }
    assert(seq!['V'] != seq!['T', 'A', 'B']) by { assert(seq!['V'].len() != seq!['T', 'A', 'B'].len()); }
    assert(seq!['V'] != seq!['E', 'Q', 'U', 'A', 'L']) by { assert(seq!['V'].len() != seq!['E', 'Q', 'U', 'A', 'L'].len()); }
    assert(seq!['V'] != seq!['M', 'I', 'N', 'U', 'S']) by { assert(seq!['V'].len() != seq!['M', 'I', 'N', 'U', 'S'].len()); }
    assert(seq!['V'] != seq!['0']) by { assert(seq!['V'][0] != seq!['0'][0]); }
    assert(seq!['V'] != seq!['C', 'O', 'M', 'M', 'A']) by { assert(seq!['V'].len() != seq!['C', 'O', 'M', 'M', 'A'].len()); }
    assert(seq!['V'] != seq!['P']) by { assert(seq!['V'][0] != seq!['P'][0]); }
    assert(seq!['V'] != seq!['F']) by { assert(seq!['V'][0] != seq!['F'][0]); }
    assert(seq!['V'] != seq!['F', '3']) by { assert(seq!['V'].len() != seq!['F', '3'].len()); }
    assert(seq!['T'] != seq!['W']) by { assert(seq!['T'][0] != seq!['W'][0]); }
    assert(seq!['T'] != seq!['T', 'A', 'B']) by { assert(seq!['T'].len() != seq!['T', 'A', 'B'].len()); }
    assert(seq!['T'] != seq!['E', 'Q', 'U', 'A', 'L']) by { assert(seq!['T'].len() != seq!['E', 'Q', 'U', 'A', 'L'].len()); }
    assert(seq!['T'] != seq!['M', 'I', 'N', 'U', 'S']) by { assert(seq!['T'].len() != seq!['M', 'I', 'N', 'U', 'S'].len()); }
    assert(seq!['T'] != seq!['0']) by { assert(seq!['T'][0] != seq!['0'][0]); }
    assert(seq!['T'] != seq!['C', 'O', 'M', 'M', 'A']) by { assert(seq!['T'].len() != seq!['C', 'O', 'M', 'M', 'A'].len()); }
    assert(seq!['T'] != seq!['P']) by { assert(seq!['T'][0] != seq!['P'][0]); }
    assert(seq!['T'] != seq!['F']) by { assert(seq!['T'][0] != seq!['F'][0]); }
    assert(seq!['T'] != seq!['F', '3']) by { assert(seq!['T'].len() != seq!['F', '3'].len()); }
    assert(seq!['W'] != seq!['T', 'A', 'B']) by { assert(seq!['W'].len() != seq!['T', 'A', 'B'].len()); }
    assert(seq!['W'] != seq!['E', 'Q', 'U', 'A', 'L']) by { assert(seq!['W'].len() != seq!['E', 'Q', 'U', 'A', 'L'].len()); }
    assert(seq!['W'] != seq!['M', 'I', 'N', 'U', 'S']) by { assert(seq!['W'].len() != seq!['M', 'I', 'N', 'U', 'S'].len()); }
    assert(seq!['W'] != seq!['0']) by { assert(seq!['W'][0] != seq!['0'][0]); }
    assert(seq!['W'] != seq!['C', 'O', 'M', 'M', 'A']) by { assert(seq!['W'].len() != seq!['C', 'O', 'M', 'M', 'A'].len()); }
    assert(seq!['W'] != seq!['P']) by { assert(seq!['W'][0] != seq!['P'][0]); }
    assert(seq!['W'] != seq!['F']) by { assert(seq!['W'][0] != seq!['F'][0]); }
    assert(seq!['W'] != seq!['F', '3']) by { assert(seq!['W'].len() != seq!['F', '3'].len()); }
    assert(seq!['T', 'A', 'B'] != seq!['E', 'Q', 'U', 'A', 'L']) by { assert(seq!['T', 'A', 'B'].len() != seq!['E', 'Q', 'U', 'A', 'L'].len()); }
    assert(seq!['T', 'A', 'B'] != seq!['M', 'I', 'N', 'U', 'S']) by { assert(seq!['T', 'A', 'B'].len() != seq!['M', 'I', 'N', 'U', 'S'].len()); }
    assert(seq!['T', 'A', 'B'] != seq!['0']) by { assert(seq!['T', 'A', 'B'].len() != seq!['0'].len()); }
    assert(seq!['T', 'A', 'B'] != seq!['C', 'O', 'M', 'M', 'A']) by { assert(seq!['T', 'A', 'B'].len() != seq!['C', 'O', 'M', 'M', 'A'].len()); }
    assert(seq!['T', 'A', 'B'] != seq!['P']) by { assert(seq!['T', 'A', 'B'].len() != seq!['P'].len()); }
    assert(seq!['T', 'A', 'B'] != seq!['F']) by { assert(seq!['T', 'A', 'B'].len() != seq!['F'].len()); }
    assert(seq!['T', 'A', 'B'] != seq!['F', '3']) by { assert(seq!['T', 'A', 'B'].len() != seq!['F', '3'].len()); }
    assert(seq!['E', 'Q', 'U', 'A', 'L'] != seq!['M', 'I', 'N', 'U', 'S']) by { assert(seq!['E', 'Q', 'U', 'A', 'L'][0] != seq!['M', 'I', 'N', 'U', 'S'][0]); }
    assert(seq!['E', 'Q', 'U', 'A', 'L'] != seq!['0']) by { assert(seq!['E', 'Q', 'U', 'A', 'L'].len() != seq!['0'].len()); }
    assert(seq!['E', 'Q', 'U', 'A', 'L'] != seq!['C', 'O', 'M', 'M', 'A']) by { assert(seq!['E', 'Q', 'U', 'A', 'L'][0] != seq!['C', 'O', 'M', 'M', 'A'][0]); }
    assert(seq!['E', 'Q', 'U', 'A', 'L'] != seq!['P']) by { assert(seq!['E', 'Q', 'U', 'A', 'L'].len() != seq!['P'].len()); }
    assert(seq!['E', 'Q', 'U', 'A', 'L'] != seq!['F']) by { assert(seq!['E', 'Q', 'U', 'A', 'L'].len() != seq!['F'].len()); }
    assert(seq!['E', 'Q', 'U', 'A', 'L'] != seq!['F', '3']) by { assert(seq!['E', 'Q', 'U', 'A', 'L'].len() != seq!['F', '3'].len()); }
    assert(seq!['M', 'I', 'N', 'U', 'S'] != seq!['0']) by { assert(seq!['M', 'I', 'N', 'U', 'S'].len() != seq!['0'].len()); }
    assert(seq!['M', 'I', 'N', 'U', 'S'] != seq!['C', 'O', 'M', 'M', 'A']) by { assert(seq!['M', 'I', 'N', 'U', 'S'][0] != seq!['C', 'O', 'M', 'M', 'A'][0]); }
    assert(seq!['M', 'I', 'N', 'U', 'S'] != seq!['P']) by { assert(seq!['M', 'I', 'N', 'U', 'S'].len() != seq!['P'].len()); }
    assert(seq!['M', 'I', 'N', 'U', 'S'] != seq!['F']) by { assert(seq!['M', 'I', 'N', 'U', 'S'].len() != seq!['F'].len()); }
    assert(seq!['M', 'I', 'N', 'U', 'S'] != seq!['F', '3']) by { assert(seq!['M', 'I', 'N', 'U', 'S'].len() != seq!['F', '3'].len()); }
    assert(seq!['0'] != seq!['C', 'O', 'M', 'M', 'A']) by { assert(seq!['0'].len() != seq!['C', 'O', 'M', 'M', 'A'].len()); }
    assert(seq!['0'] != seq!['P']) by { assert(seq!['0'][0] != seq!['P'][0]); }
    assert(seq!['0'] != seq!['F']) by { assert(seq!['0'][0] != seq!['F'][0]); }
    assert(seq!['0'] != seq!['F', '3']) by { assert(seq!['0'].len() != seq!['F', '3'].len()); }
    assert(seq!['C', 'O', 'M', 'M', 'A'] != seq!['P']) by { assert(seq!['C', 'O', 'M', 'M', 'A'].len() != seq!['P'].len()); }
    assert(seq!['C', 'O', 'M', 'M', 'A'] != seq!['F']) by { assert(seq!['C', 'O', 'M', 'M', 'A'].len() != seq!['F'].len()); }
    assert(seq!['C', 'O', 'M', 'M', 'A'] != seq!['F', '3']) by { assert(seq!['C', 'O', 'M', 'M', 'A'].len() != seq!['F', '3'].len()); }
    assert(seq!['P'] != seq!['F']) by { assert(seq!['P'][0] != seq!['F'][0]); }
    assert(seq!['P'] != seq!['F', '3']) by { assert(seq!['P'].len() != seq!['F', '3'].len()); }
    assert(seq!['F'] != seq!['F', '3']) by { assert(seq!['F'].len() != seq!['F', '3'].len()); }
    let m0 = Map::<(Seq<char>, bool, bool, bool), ShortcutAction>::empty();
    let m1 = m0.insert((seq!['C'], true, true, false), ShortcutAction::Copy);
    let m2 = m1.insert((seq!['V'], true, true, false), ShortcutAction::Paste);
    let m3 = m2.insert((seq!['T'], true, true, false), ShortcutAction::NewTab);
    let m4 = m3.insert((seq!['W'], true, true, false), ShortcutAction::CloseTab);
    let m5 = m4.insert((seq!['T', 'A', 'B'], true, false, false), ShortcutAction::NextTab);
    let m6 = m5.insert((seq!['T', 'A', 'B'], true, true, false), ShortcutAction::PreviousTab);
    let m7 = m6.insert((seq!['E', 'Q', 'U', 'A', 'L'], true, false, false), ShortcutAction::IncreaseFontSize);
    let m8 = m7.insert((seq!['M', 'I', 'N', 'U', 'S'], true, false, false), ShortcutAction::DecreaseFontSize);
    let m9 = m8.insert((seq!['0'], true, false, false), ShortcutAction::ResetFontSize);
    let m10 = m9.insert((seq!['C', 'O', 'M', 'M', 'A'], true, false, false), ShortcutAction::ToggleSettings);
    let m11 = m10.insert((seq!['P'], true, true, false), ShortcutAction::SwitchTheme);
    let m12 = m11.insert((seq!['F'], true, false, false), ShortcutAction::Search);
    let m13 = m12.insert((seq!['F', '3'], false, false, false), ShortcutAction::SearchNext);
    let m14 = m13.insert((seq!['F', '3'], false, true, false), ShortcutAction::SearchPrevious);
    lemma_insert_get(m0, (seq!['C'], true, true, false), ShortcutAction::Copy, (seq!['C'], true, true, false));
    lemma_insert_get(m1, (seq!['V'], true, true, false), ShortcutAction::Paste, (seq!['C'], true, true, false));
    lemma_insert_get(m2, (seq!['T'], true, true, false), ShortcutAction::NewTab, (seq!['C'], true, true, false));
    lemma_insert_get(m3, (seq!['W'], true, true, false), ShortcutAction::CloseTab, (seq!['C'], true, true, false));
    lemma_insert_get(m4, (seq!['T', 'A', 'B'], true, false, false), ShortcutAction::NextTab, (seq!['C'], true, true, false));
    lemma_insert_get(m5, (seq!['T', 'A', 'B'], true, true, false), ShortcutAction::PreviousTab, (seq!['C'], true, true, false));
    lemma_insert_get(m6, (seq!['E', 'Q', 'U', 'A', 'L'], true, false, false), ShortcutAction::IncreaseFontSize, (seq!['C'], true, true, false));
    lemma_insert_get(m7, (seq!['M', 'I', 'N', 'U', 'S'], true, false, false), ShortcutAction::DecreaseFontSize, (seq!['C'], true, true, false));
    lemma_insert_get(m8, (seq!['0'], true, false, false), ShortcutAction::ResetFontSize, (seq!['C'], true, true, false));
    lemma_insert_get(m9, (seq!['C', 'O', 'M', 'M', 'A'], true, false, false), ShortcutAction::ToggleSettings, (seq!['C'], true, true, false));
    lemma_insert_get(m10, (seq!['P'], true, true, false), ShortcutAction::SwitchTheme, (seq!['C'], true, true, false));
    lemma_insert_get(m11, (seq!['F'], true, false, false), ShortcutAction::Search, (seq!['C'], true, true, false));
    lemma_insert_get(m12, (seq!['F', '3'], false, false, false), ShortcutAction::SearchNext, (seq!['C'], true, true, false));
    lemma_insert_get(m13, (seq!['F', '3'], false, true, false), ShortcutAction::SearchPrevious, (seq!['C'], true, true, false));
    lemma_insert_get(m1, (seq!['V'], true, true, false), ShortcutAction::Paste, (seq!['V'], true, true, false));
    lemma_insert_get(m2, (seq!['T'], true, true, false), ShortcutAction::NewTab, (seq!['V'], true, true, false));
    lemma_insert_get(m3, (seq!['W'], true, true, false), ShortcutAction::CloseTab, (seq!['V'], true, true, false));
    lemma_insert_get(m4, (seq!['T', 'A', 'B'], true, false, false), ShortcutAction::NextTab, (seq!['V'], true, true, false));
    lemma_insert_get(m5, (seq!['T', 'A', 'B'], true, true, false), ShortcutAction::PreviousTab, (seq!['V'], true, true, false));
    lemma_insert_get(m6, (seq!['E', 'Q', 'U', 'A', 'L'], true, false, false), ShortcutAction::IncreaseFontSize, (seq!['V'], true, true, false));
    lemma_insert_get(m7, (seq!['M', 'I', 'N', 'U', 'S'], true, false, false), ShortcutAction::DecreaseFontSize, (seq!['V'], true, true, false));
    lemma_insert_get(m8, (seq!['0'], true, false, false), ShortcutAction::ResetFontSize, (seq!['V'], true, true, false));
    lemma_insert_get(m9, (seq!['C', 'O', 'M', 'M', 'A'], true, false, false), ShortcutAction::ToggleSettings, (seq!['V'], true, true, false));
    lemma_insert_get(m10, (seq!['P'], true, true, false), ShortcutAction::SwitchTheme, (seq!['V'], true, true, false));
    lemma_insert_get(m11, (seq!['F'], true, false, false), ShortcutAction::Search, (seq!['V'], true, true, false));
    lemma_insert_get(m12, (seq!['F', '3'], false, false, false), ShortcutAction::SearchNext, (seq!['V'], true, true, false));
    lemma_insert_get(m13, (seq!['F', '3'], false, true, false), ShortcutAction::SearchPrevious, (seq!['V'], true, true, false));
    lemma_insert_get(m2, (seq!['T'], true, true, false), ShortcutAction::NewTab, (seq!['T'], true, true, false));
    lemma_insert_get(m3, (seq!['W'], true, true, false), ShortcutAction::CloseTab, (seq!['T'], true, true, false));
    lemma_insert_get(m4, (seq!['T', 'A', 'B'], true, false, false), ShortcutAction::NextTab, (seq!['T'], true, true, false));
    lemma_insert_get(m5, (seq!['T', 'A', 'B'], true, true, false), ShortcutAction::PreviousTab, (seq!['T'], true, true, false));
    lemma_insert_get(m6, (seq!['E', 'Q', 'U', 'A', 'L'], true, false, false), ShortcutAction::IncreaseFontSize, (seq!['T'], true, true, false));
    lemma_insert_get(m7, (seq!['M', 'I', 'N', 'U', 'S'], true, false, false), ShortcutAction::DecreaseFontSize, (seq!['T'], true, true, false));
    lemma_insert_get(m8, (seq!['0'], true, false, false), ShortcutAction::ResetFontSize, (seq!['T'], true, true, false));
    lemma_insert_get(m9, (seq!['C', 'O', 'M', 'M', 'A'], true, false, false), ShortcutAction::ToggleSettings, (seq!['T'], true, true, false));
    lemma_insert_get(m10, (seq!['P'], true, true, false), ShortcutAction::SwitchTheme, (seq!['T'], true, true, false));
    lemma_insert_get(m11, (seq!['F'], true, false, false), ShortcutAction::Search, (seq!['T'], true, true, false));
    lemma_insert_get(m12, (seq!['F', '3'], false, false, false), ShortcutAction::SearchNext, (seq!['T'], true, true, false));
    lemma_insert_get(m13, (seq!['F', '3'], false, true, false), ShortcutAction::SearchPrevious, (seq!['T'], true, true, false));
    lemma_insert_get(m3, (seq!['W'], true, true, false), ShortcutAction::CloseTab, (seq!['W'], true, true, false));
    lemma_insert_get(m4, (seq!['T', 'A', 'B'], true, false, false), ShortcutAction::NextTab, (seq!['W'], true, true, false));
    lemma_insert_get(m5, (seq!['T', 'A', 'B'], true, true, false), ShortcutAction::PreviousTab, (seq!['W'], true, true, false));
    lemma_insert_get(m6, (seq!['E', 'Q', 'U', 'A', 'L'], true, false, false), ShortcutAction::IncreaseFontSize, (seq!['W'], true, true, false));
    lemma_insert_get(m7, (seq!['M', 'I', 'N', 'U', 'S'], true, false, false), ShortcutAction::DecreaseFontSize, (seq!['W'], true, true, false));
    lemma_insert_get(m8, (seq!['0'], true, false, false), ShortcutAction::ResetFontSize, (seq!['W'], true, true, false));
    lemma_insert_get(m9, (seq!['C', 'O', 'M', 'M', 'A'], true, false, false), ShortcutAction::ToggleSettings, (seq!['W'], true, true, false));
    lemma_insert_get(m10, (seq!['P'], true, true, false), ShortcutAction::SwitchTheme, (seq!['W'], true, true, false));
    lemma_insert_get(m11, (seq!['F'], true, false, false), ShortcutAction::Search, (seq!['W'], true, true, false));
    lemma_insert_get(m12, (seq!['F', '3'], false, false, false), ShortcutAction::SearchNext, (seq!['W'], true, true, false));
    lemma_insert_get(m13, (seq!['F', '3'], false, true, false), ShortcutAction::SearchPrevious, (seq!['W'], true, true, false));
    lemma_insert_get(m4, (seq!['T', 'A', 'B'], true, false, false), ShortcutAction::NextTab, (seq!['T', 'A', 'B'], true, false, false));
    lemma_insert_get(m5, (seq!['T', 'A', 'B'], true, true, false), ShortcutAction::PreviousTab, (seq!['T', 'A', 'B'], true, false, false));
    lemma_insert_get(m6, (seq!['E', 'Q', 'U', 'A', 'L'], true, false, false), ShortcutAction::IncreaseFontSize, (seq!['T', 'A', 'B'], true, false, false));
    lemma_insert_get(m7, (seq!['M', 'I', 'N', 'U', 'S'], true, false, false), ShortcutAction::DecreaseFontSize, (seq!['T', 'A', 'B'], true, false, false));
    lemma_insert_get(m8, (seq!['0'], true, false, false), ShortcutAction::ResetFontSize, (seq!['T', 'A', 'B'], true, false, false));
    lemma_insert_get(m9, (seq!['C', 'O', 'M', 'M', 'A'], true, false, false), ShortcutAction::ToggleSettings, (seq!['T', 'A', 'B'], true, false, false));
    lemma_insert_get(m10, (seq!['P'], true, true, false), ShortcutAction::SwitchTheme, (seq!['T', 'A', 'B'], true, false, false));
    lemma_insert_get(m11, (seq!['F'], true, false, false), ShortcutAction::Search, (seq!['T', 'A', 'B'], true, false, false));
    lemma_insert_get(m12, (seq!['F', '3'], false, false, false), ShortcutAction::SearchNext, (seq!['T', 'A', 'B'], true, false, false));
    lemma_insert_get(m13, (seq!['F', '3'], false, true, false), ShortcutAction::SearchPrevious, (seq!['T', 'A', 'B'], true, false, false));
    lemma_insert_get(m5, (seq!['T', 'A', 'B'], true, true, false), ShortcutAction::PreviousTab, (seq!['T', 'A', 'B'], true, true, false));
    lemma_insert_get(m6, (seq!['E', 'Q', 'U', 'A', 'L'], true, false, false), ShortcutAction::IncreaseFontSize, (seq!['T', 'A', 'B'], true, true, false));
    lemma_insert_get(m7, (seq!['M', 'I', 'N', 'U', 'S'], true, false, false), ShortcutAction::DecreaseFontSize, (seq!['T', 'A', 'B'], true, true, false));
    lemma_insert_get(m8, (seq!['0'], true, false, false), ShortcutAction::ResetFontSize, (seq!['T', 'A', 'B'], true, true, false));
    lemma_insert_get(m9, (seq!['C', 'O', 'M', 'M', 'A'], true, false, false), ShortcutAction::ToggleSettings, (seq!['T', 'A', 'B'], true, true, false));
    lemma_insert_get(m10, (seq!['P'], true, true, false), ShortcutAction::SwitchTheme, (seq!['T', 'A', 'B'], true, true, false));
    lemma_insert_get(m11, (seq!['F'], true, false, false), ShortcutAction::Search, (seq!['T', 'A', 'B'], true, true, false));
    lemma_insert_get(m12, (seq!['F', '3'], false, false, false), ShortcutAction::SearchNext, (seq!['T', 'A', 'B'], true, true, false));
    lemma_insert_get(m13, (seq!['F', '3'], false, true, false), ShortcutAction::SearchPrevious, (seq!['T', 'A', 'B'], true, true, false));
    lemma_insert_get(m6, (seq!['E', 'Q', 'U', 'A', 'L'], true, false, false), ShortcutAction::IncreaseFontSize, (seq!['E', 'Q', 'U', 'A', 'L'], true, false, false));
    lemma_insert_get(m7, (seq!['M', 'I', 'N', 'U', 'S'], true, false, false), ShortcutAction::DecreaseFontSize, (seq!['E', 'Q', 'U', 'A', 'L'], true, false, false));
    lemma_insert_get(m8, (seq!['0'], true, false, false), ShortcutAction::ResetFontSize, (seq!['E', 'Q', 'U', 'A', 'L'], true, false, false));
    lemma_insert_get(m9, (seq!['C', 'O', 'M', 'M', 'A'], true, false, false), ShortcutAction::ToggleSettings, (seq!['E', 'Q', 'U', 'A', 'L'], true, false, false));
    lemma_insert_get(m10, (seq!['P'], true, true, false), ShortcutAction::SwitchTheme, (seq!['E', 'Q', 'U', 'A', 'L'], true, false, false));
    lemma_insert_get(m11, (seq!['F'], true, false, false), ShortcutAction::Search, (seq!['E', 'Q', 'U', 'A', 'L'], true, false, false));
    lemma_insert_get(m12, (seq!['F', '3'], false, false, false), ShortcutAction::SearchNext, (seq!['E', 'Q', 'U', 'A', 'L'], true, false, false));
    lemma_insert_get(m13, (seq!['F', '3'], false, true, false), ShortcutAction::SearchPrevious, (seq!['E', 'Q', 'U', 'A', 'L'], true, false, false));
    lemma_insert_get(m7, (seq!['M', 'I', 'N', 'U', 'S'], true, false, false), ShortcutAction::DecreaseFontSize, (seq!['M', 'I', 'N', 'U', 'S'], true, false, false));
    lemma_insert_get(m8, (seq!['0'], true, false, false), ShortcutAction::ResetFontSize, (seq!['M', 'I', 'N', 'U', 'S'], true, false, false));
    lemma_insert_get(m9, (seq!['C', 'O', 'M', 'M', 'A'], true, false, false), ShortcutAction::ToggleSettings, (seq!['M', 'I', 'N', 'U', 'S'], true, false, false));
    lemma_insert_get(m10, (seq!['P'], true, true, false), ShortcutAction::SwitchTheme, (seq!['M', 'I', 'N', 'U', 'S'], true, false, false));
    lemma_insert_get(m11, (seq!['F'], true, false, false), ShortcutAction::Search, (seq!['M', 'I', 'N', 'U', 'S'], true, false, false));
    lemma_insert_get(m12, (seq!['F', '3'], false, false, false), ShortcutAction::SearchNext, (seq!['M', 'I', 'N', 'U', 'S'], true, false, false));
    lemma_insert_get(m13, (seq!['F', '3'], false, true, false), ShortcutAction::SearchPrevious, (seq!['M', 'I', 'N', 'U', 'S'], true, false, false));
    lemma_insert_get(m8, (seq!['0'], true, false, false), ShortcutAction::ResetFontSize, (seq!['0'], true, false, false));
    lemma_insert_get(m9, (seq!['C', 'O', 'M', 'M', 'A'], true, false, false), ShortcutAction::ToggleSettings, (seq!['0'], true, false, false));
    lemma_insert_get(m10, (seq!['P'], true, true, false), ShortcutAction::SwitchTheme, (seq!['0'], true, false, false));
    lemma_insert_get(m11, (seq!['F'], true, false, false), ShortcutAction::Search, (seq!['0'], true, false, false));
    lemma_insert_get(m12, (seq!['F', '3'], false, false, false), ShortcutAction::SearchNext, (seq!['0'], true, false, false));
    lemma_insert_get(m13, (seq!['F', '3'], false, true, false), ShortcutAction::SearchPrevious, (seq!['0'], true, false, false));
    lemma_insert_get(m9, (seq!['C', 'O', 'M', 'M', 'A'], true, false, false), ShortcutAction::ToggleSettings, (seq!['C', 'O', 'M', 'M', 'A'], true, false, false));
    lemma_insert_get(m10, (seq!['P'], true, true, false), ShortcutAction::SwitchTheme, (seq!['C', 'O', 'M', 'M', 'A'], true, false, false));
    lemma_insert_get(m11, (seq!['F'], true, false, false), ShortcutAction::Search, (seq!['C', 'O', 'M', 'M', 'A'], true, false, false));
    lemma_insert_get(m12, (seq!['F', '3'], false, false, false), ShortcutAction::SearchNext, (seq!['C', 'O', 'M', 'M', 'A'], true, false, false));
    lemma_insert_get(m13, (seq!['F', '3'], false, true, false), ShortcutAction::SearchPrevious, (seq!['C', 'O', 'M', 'M', 'A'], true, false, false));
    lemma_insert_get(m10, (seq!['P'], true, true, false), ShortcutAction::SwitchTheme, (seq!['P'], true, true, false));
    lemma_insert_get(m11, (seq!['F'], true, false, false), ShortcutAction::Search, (seq!['P'], true, true, false));
    lemma_insert_get(m12, (seq!['F', '3'], false, false, false), ShortcutAction::SearchNext, (seq!['P'], true, true, false));
    lemma_insert_get(m13, (seq!['F', '3'], false, true, false), ShortcutAction::SearchPrevious, (seq!['P'], true, true, false));
    lemma_insert_get(m11, (seq!['F'], true, false, false), ShortcutAction::Search, (seq!['F'], true, false, false));
    lemma_insert_get(m12, (seq!['F', '3'], false, false, false), ShortcutAction::SearchNext, (seq!['F'], true, false, false));
    lemma_insert_get(m13, (seq!['F', '3'], false, true, false), ShortcutAction::SearchPrevious, (seq!['F'], true, false, false));
    lemma_insert_get(m12, (seq!['F', '3'], false, false, false), ShortcutAction::SearchNext, (seq!['F', '3'], false, false, false));
    lemma_insert_get(m13, (seq!['F', '3'], false, true, false), ShortcutAction::SearchPrevious, (seq!['F', '3'], false, false, false));
    lemma_insert_get(m13, (seq!['F', '3'], false, true, false), ShortcutAction::SearchPrevious, (seq!['F', '3'], false, true, false));
    assert(bindings_spelled_out().dom() =~= set![
        (seq!['C'], true, true, false),
        (seq!['V'], true, true, false),
        (seq!['T'], true, true, false),
        (seq!['W'], true, true, false),
        (seq!['T', 'A', 'B'], true, false, false),
        (seq!['T', 'A', 'B'], true, true, false),
        (seq!['E', 'Q', 'U', 'A', 'L'], true, false, false),
        (seq!['M', 'I', 'N', 'U', 'S'], true, false, false),
        (seq!['0'], true, false, false),
        (seq!['C', 'O', 'M', 'M', 'A'], true, false, false),
        (seq!['P'], true, true, false),
        (seq!['F'], true, false, false),
        (seq!['F', '3'], false, false, false),
        (seq!['F', '3'], false, true, false),
    ]);
}

/// The default bindings are the spelled-out ones.
proof fn lemma_default_map_spelled_out()
    ensures
        default_map() == bindings_spelled_out(),
{
    reveal_strlit("0");
    lemma_upper_ascii("0"@);
    assert("0"@ =~= seq!['0']);
    reveal_strlit("C");
    lemma_upper_ascii("C"@);
    assert("C"@ =~= seq!['C']);
    reveal_strlit("COMMA");
    lemma_upper_ascii("COMMA"@);
    assert("COMMA"@ =~= seq!['C', 'O', 'M', 'M', 'A']);
    reveal_strlit("EQUAL");
    lemma_upper_ascii("EQUAL"@);
    assert("EQUAL"@ =~= seq!['E', 'Q', 'U', 'A', 'L']);
    reveal_strlit("F");
    lemma_upper_ascii("F"@);
    assert("F"@ =~= seq!['F']);
    reveal_strlit("F3");
    lemma_upper_ascii("F3"@);
    assert("F3"@ =~= seq!['F', '3']);
    reveal_strlit("MINUS");
    lemma_upper_ascii("MINUS"@);
    assert("MINUS"@ =~= seq!['M', 'I', 'N', 'U', 'S']);
    reveal_strlit("P");
    lemma_upper_ascii("P"@);
    assert("P"@ =~= seq!['P']);
    reveal_strlit("T");
    lemma_upper_ascii("T"@);
    assert("T"@ =~= seq!['T']);
    reveal_strlit("TAB");
    lemma_upper_ascii("TAB"@);
    assert("TAB"@ =~= seq!['T', 'A', 'B']);
    reveal_strlit("V");
    lemma_upper_ascii("V"@);
    assert("V"@ =~= seq!['V']);
    reveal_strlit("W");
    lemma_upper_ascii("W"@);
    assert("W"@ =~= seq!['W']);
    assert(default_map() =~= bindings_spelled_out());
}

/// The default key bindings: Ctrl+Shift+C/V copy and paste, Ctrl+Shift+T/W open and close a
/// tab, Ctrl+Tab and Ctrl+Shift+Tab step through tabs, Ctrl+= and Ctrl+- make the font larger
/// and smaller, Ctrl+0 resets it, Ctrl+, opens the settings, Ctrl+Shift+P switches the theme,
/// Ctrl+F searches, and F3 and Shift+F3 go to the next and previous match; no other press is
/// bound.
pub proof fn law_default_bindings()
    ensures
        default_map().get((key_name(TermKey::KeyC), true, true, false)) == Some(ShortcutAction::Copy),
        default_map().get((key_name(TermKey::KeyV), true, true, false)) == Some(ShortcutAction::Paste),
        default_map().get((key_name(TermKey::KeyT), true, true, false)) == Some(ShortcutAction::NewTab),
        default_map().get((key_name(TermKey::KeyW), true, true, false)) == Some(ShortcutAction::CloseTab),
        default_map().get((key_name(TermKey::Tab), true, false, false)) == Some(ShortcutAction::NextTab),
        default_map().get((key_name(TermKey::Tab), true, true, false)) == Some(ShortcutAction::PreviousTab),
        default_map().get((key_name(TermKey::Equal), true, false, false)) == Some(ShortcutAction::IncreaseFontSize),
        default_map().get((key_name(TermKey::Minus), true, false, false)) == Some(ShortcutAction::DecreaseFontSize),
        default_map().get((key_name(TermKey::Digit0), true, false, false)) == Some(ShortcutAction::ResetFontSize),
        default_map().get((key_name(TermKey::Comma), true, false, false)) == Some(ShortcutAction::ToggleSettings),
        default_map().get((key_name(TermKey::KeyP), true, true, false)) == Some(ShortcutAction::SwitchTheme),
        default_map().get((key_name(TermKey::KeyF), true, false, false)) == Some(ShortcutAction::Search),
        default_map().get((key_name(TermKey::F3), false, false, false)) == Some(ShortcutAction::SearchNext),
        default_map().get((key_name(TermKey::F3), false, true, false)) == Some(ShortcutAction::SearchPrevious),
        default_map().dom().len() == 14,
{
    lemma_default_map_spelled_out();
    lemma_spelled_out_lookups();
    reveal_strlit("0");
    assert("0"@ =~= seq!['0']);
    reveal_strlit("C");
    assert("C"@ =~= seq!['C']);
    reveal_strlit("COMMA");
    assert("COMMA"@ =~= seq!['C', 'O', 'M', 'M', 'A']);
    reveal_strlit("EQUAL");
    assert("EQUAL"@ =~= seq!['E', 'Q', 'U', 'A', 'L']);
    reveal_strlit("F");
    assert("F"@ =~= seq!['F']);
    reveal_strlit("F3");
    assert("F3"@ =~= seq!['F', '3']);
    reveal_strlit("MINUS");
    assert("MINUS"@ =~= seq!['M', 'I', 'N', 'U', 'S']);
    reveal_strlit("P");
    assert("P"@ =~= seq!['P']);
    reveal_strlit("T");
    assert("T"@ =~= seq!['T']);
    reveal_strlit("TAB");
    assert("TAB"@ =~= seq!['T', 'A', 'B']);
    reveal_strlit("V");
    assert("V"@ =~= seq!['V']);
    reveal_strlit("W");
    assert("W"@ =~= seq!['W']);
}

/// An ASCII text is its own upper case when it has no small letters.
proof fn lemma_upper_ascii(t: Seq<char>)
    requires
        forall|i: int| 0 <= i < t.len() ==> ('A' <= #[trigger] t[i] <= 'Z' || '0' <= t[i] <= '9'),
    ensures
        case_upper(t) == t,
{
    assert(crate::text::all_ascii(t));
    assert(t.map_values(|c: char| crate::text::ascii_upper_char(c)) =~= t);
}

/// `after` is `before` with attribute bit `bit` set, its colours and other attributes kept.
pub open spec fn attribute_set(before: Pen, after: Pen, bit: u16) -> bool {
    &&& after.flags.0 & bit == bit
    &&& after.flags.0 & !bit == before.flags.0 & !bit
    &&& after.foreground == before.foreground
    &&& after.background == before.background
}

/// `after` is `before` with attribute bit `bit` cleared, its colours kept.
pub open spec fn attribute_cleared(before: Pen, after: Pen, bit: u16) -> bool {
    &&& after.flags.0 & bit == 0
    &&& after.foreground == before.foreground
    &&& after.background == before.background
}

/// SGR attribute codes turn one attribute on or off and leave the colours alone: `1` bold,
/// `2` dim, `3` italic, `4` underline, `5` blink, `7` reverse, `8` hidden, `9` strikethrough and
/// `21` double underline each set their attribute and no other; `22` clears bold and dim, `23`
/// italic, `24` underline and double underline, `25` blink, `27` reverse, `28` hidden and `29`
/// strikethrough.
pub proof fn law_sgr_attribute_codes(pen: Pen, dfg: Color, dbg: Color)
    ensures
        attribute_set(pen, spec_sgr(pen, dfg, dbg, seq![1u16]), 1u16),
        attribute_cleared(pen, spec_sgr(pen, dfg, dbg, seq![22u16]), 1u16),
        attribute_set(pen, spec_sgr(pen, dfg, dbg, seq![2u16]), 128u16),
        attribute_cleared(pen, spec_sgr(pen, dfg, dbg, seq![22u16]), 128u16),
        attribute_set(pen, spec_sgr(pen, dfg, dbg, seq![3u16]), 2u16),
        attribute_cleared(pen, spec_sgr(pen, dfg, dbg, seq![23u16]), 2u16),
        attribute_set(pen, spec_sgr(pen, dfg, dbg, seq![4u16]), 4u16),
        attribute_cleared(pen, spec_sgr(pen, dfg, dbg, seq![24u16]), 4u16),
        attribute_set(pen, spec_sgr(pen, dfg, dbg, seq![5u16]), 8u16),
        attribute_cleared(pen, spec_sgr(pen, dfg, dbg, seq![25u16]), 8u16),
        attribute_set(pen, spec_sgr(pen, dfg, dbg, seq![7u16]), 16u16),
        attribute_cleared(pen, spec_sgr(pen, dfg, dbg, seq![27u16]), 16u16),
        attribute_set(pen, spec_sgr(pen, dfg, dbg, seq![8u16]), 1024u16),
        attribute_cleared(pen, spec_sgr(pen, dfg, dbg, seq![28u16]), 1024u16),
        attribute_set(pen, spec_sgr(pen, dfg, dbg, seq![9u16]), 256u16),
        attribute_cleared(pen, spec_sgr(pen, dfg, dbg, seq![29u16]), 256u16),
        attribute_set(pen, spec_sgr(pen, dfg, dbg, seq![21u16]), 512u16),
        attribute_cleared(pen, spec_sgr(pen, dfg, dbg, seq![24u16]), 512u16),
{
    lemma_single_code(pen, dfg, dbg, 1u16);
    lemma_single_code(pen, dfg, dbg, 21u16);
    lemma_single_code(pen, dfg, dbg, 22u16);
    lemma_single_code(pen, dfg, dbg, 23u16);
    lemma_single_code(pen, dfg, dbg, 24u16);
    lemma_single_code(pen, dfg, dbg, 25u16);
    lemma_single_code(pen, dfg, dbg, 27u16);
    lemma_single_code(pen, dfg, dbg, 28u16);
    lemma_single_code(pen, dfg, dbg, 29u16);
    lemma_single_code(pen, dfg, dbg, 2u16);
    lemma_single_code(pen, dfg, dbg, 3u16);
    lemma_single_code(pen, dfg, dbg, 4u16);
    lemma_single_code(pen, dfg, dbg, 5u16);
    lemma_single_code(pen, dfg, dbg, 7u16);
    lemma_single_code(pen, dfg, dbg, 8u16);
    lemma_single_code(pen, dfg, dbg, 9u16);
    let f = pen.flags.0;
    lemma_or_sets(f, 1u16);
    lemma_or_sets(f, 128u16);
    lemma_or_sets(f, 2u16);
    lemma_or_sets(f, 4u16);
    lemma_or_sets(f, 8u16);
    lemma_or_sets(f, 16u16);
    lemma_or_sets(f, 1024u16);
    lemma_or_sets(f, 256u16);
    lemma_or_sets(f, 512u16);
    assert(f & !(1u16 | 128u16) & 1u16 == 0) by (bit_vector);
    assert(f & !(1u16 | 128u16) & 128u16 == 0) by (bit_vector);
    assert(f & !2u16 & 2u16 == 0) by (bit_vector);
    assert(f & !(4u16 | 512u16) & 4u16 == 0) by (bit_vector);
    assert(f & !(4u16 | 512u16) & 512u16 == 0) by (bit_vector);
    assert(f & !8u16 & 8u16 == 0) by (bit_vector);
    assert(f & !16u16 & 16u16 == 0) by (bit_vector);
    assert(f & !1024u16 & 1024u16 == 0) by (bit_vector);
    assert(f & !256u16 & 256u16 == 0) by (bit_vector);
}

/// Setting a bit with `|` makes it set and keeps every other bit.
proof fn lemma_or_sets(f: u16, bit: u16)
    ensures
        (f | bit) & bit == bit,
        (f | bit) & !bit == f & !bit,
{
    assert((f | bit) & bit == bit) by (bit_vector);
    assert((f | bit) & !bit == f & !bit) by (bit_vector);
}

/// SGR with the single code `v` (not an extended-colour introducer) does what that code does.
proof fn lemma_single_code(pen: Pen, dfg: Color, dbg: Color, v: u16)
    requires
        v != 38 && v != 48,
    ensures
        spec_sgr(pen, dfg, dbg, seq![v]) == crate::terminal::sgr_simple(pen, dfg, dbg, v),
{
    let p = seq![v];
    let next = crate::terminal::sgr_simple(pen, dfg, dbg, v);
    assert(crate::terminal::sgr_from(next, dfg, dbg, p, 1) == next);
}

/// The eight normal palette colours 1-6 and their bright versions 9-14 mix red, green and
/// blue as the bits of their number say: red for bit 0, green for bit 1, blue for bit 2.
pub proof fn law_palette_channels(i: int)
    requires
        1 <= i <= 6,
    ensures
        (spec_ansi_color(i).r != 0) == (i % 2 == 1),
        (spec_ansi_color(i).g != 0) == ((i / 2) % 2 == 1),
        (spec_ansi_color(i).b != 0) == ((i / 4) % 2 == 1),
        (spec_ansi_color(i + 8).r != 0) == (i % 2 == 1),
        (spec_ansi_color(i + 8).g != 0) == ((i / 2) % 2 == 1),
        (spec_ansi_color(i + 8).b != 0) == ((i / 4) % 2 == 1),
{
}

/// SGR mouse reports give the left, middle and right buttons the numbers 0, 1 and 2 (plus 32
/// while dragging, plus 4, 8 and 16 for Shift, Alt and Ctrl), end a release with `m` and
/// anything else with `M`; other buttons are not reported.
pub proof fn law_mouse_buttons(b: MouseButton, row: usize, col: usize, shift: bool, alt: bool, ctrl: bool)
    requires
        row < 222,
        col < 222,
    ensures
        ({
            let m: nat = (if shift { 4nat } else { 0nat }) + (if alt { 8nat } else { 0nat }) + (if ctrl { 16nat } else { 0nat });
            let n: nat = if b == MouseButton::Left { 0 } else if b == MouseButton::Middle { 1 } else { 2 };
            let head = seq![0x1Bu8, 0x5Bu8, 0x3Cu8];
            let pos = seq![0x3Bu8] + decimal((col + 1) as nat) + seq![0x3Bu8] + decimal((row + 1) as nat);
            if b == MouseButton::Left || b == MouseButton::Middle || b == MouseButton::Right {
                &&& spec_mouse_report(MouseReportKind::Press(b), row, col, true, shift, alt, ctrl)
                    == Some(head + decimal(n + m) + pos + seq![0x4Du8])
                &&& spec_mouse_report(MouseReportKind::Release(b), row, col, true, shift, alt, ctrl)
                    == Some(head + decimal(n + m) + pos + seq![0x6Du8])
                &&& spec_mouse_report(MouseReportKind::Motion(Some(b)), row, col, true, shift, alt, ctrl)
                    == Some(head + decimal(n + 32 + m) + pos + seq![0x4Du8])
            } else {
                &&& spec_mouse_report(MouseReportKind::Press(b), row, col, true, shift, alt, ctrl) is None
                &&& spec_mouse_report(MouseReportKind::Release(b), row, col, true, shift, alt, ctrl) is None
            }
        }),
{
    let m: nat = (if shift { 4nat } else { 0nat }) + (if alt { 8nat } else { 0nat }) + (if ctrl { 16nat } else { 0nat });
    assert(mouse_modifiers(shift, alt, ctrl) == m);
    let n: nat = if b == MouseButton::Left { 0 } else if b == MouseButton::Middle { 1 } else { 2 };
    if b == MouseButton::Left || b == MouseButton::Middle || b == MouseButton::Right {
        lemma_sgr_report(MouseReportKind::Press(b), n, row, col, shift, alt, ctrl, m);
        lemma_sgr_report(MouseReportKind::Release(b), n, row, col, shift, alt, ctrl, m);
        lemma_sgr_report(MouseReportKind::Motion(Some(b)), n + 32, row, col, shift, alt, ctrl, m);
    }
}

/// The SGR report of an event with button value `base`.
proof fn lemma_sgr_report(kind: MouseReportKind, base: nat, row: usize, col: usize, shift: bool, alt: bool, ctrl: bool, m: nat)
    requires
        crate::input::report_base(kind) == Some(base as usize),
        base < 100,
        row < 222,
        col < 222,
        m == (if shift { 4nat } else { 0nat }) + (if alt { 8nat } else { 0nat }) + (if ctrl { 16nat } else { 0nat }),
    ensures
        spec_mouse_report(kind, row, col, true, shift, alt, ctrl) == Some(seq![0x1Bu8, 0x5Bu8, 0x3Cu8] + decimal(base + m)
            + (seq![0x3Bu8] + decimal((col + 1) as nat) + seq![0x3Bu8] + decimal((row + 1) as nat))
            + seq![if kind is Release { 0x6Du8 } else { 0x4Du8 }]),
{
    assert(mouse_modifiers(shift, alt, ctrl) == m);
    let r = seq![0x1Bu8, 0x5Bu8, 0x3Cu8] + decimal(((base as usize) + mouse_modifiers(shift, alt, ctrl)) as nat)
        + seq![0x3Bu8] + decimal((col + 1) as nat) + seq![0x3Bu8] + decimal((row + 1) as nat)
        + seq![if kind is Release { 0x6Du8 } else { 0x4Du8 }];
    assert(r =~= seq![0x1Bu8, 0x5Bu8, 0x3Cu8] + decimal(base + m)
            + (seq![0x3Bu8] + decimal((col + 1) as nat) + seq![0x3Bu8] + decimal((row + 1) as nat))
            + seq![if kind is Release { 0x6Du8 } else { 0x4Du8 }]);
}
} // verus!
