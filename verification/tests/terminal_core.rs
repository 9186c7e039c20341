use superpower::cell::{Cell, Color};
use superpower::grid::Grid;
use superpower::palette::ansi_color;
use superpower::selection::{line_bounds, word_bounds, Selection, SelectionPos};
use superpower::input::{handle_key_input, KeyInput, TermKey};
use superpower::terminal::{MouseTrackingMode, Terminal};

/// Feeds bytes through a `vte` parser into a terminal, the way the application does.
struct Handler {
    parser: vte::Parser,
    terminal: Terminal,
}

struct Performer<'a> {
    terminal: &'a mut Terminal,
}

impl<'a> vte::Perform for Performer<'a> {
    fn print(&mut self, c: char) {
        assert!(self.terminal.can_print());
        self.terminal.print(c);
    }

    fn execute(&mut self, byte: u8) {
        assert!(self.terminal.can_execute(byte));
        self.terminal.execute(byte);
    }

    fn csi_dispatch(&mut self, params: &vte::Params, intermediates: &[u8], _ignore: bool, action: char) {
        let p: Vec<u16> = params.iter().flat_map(|s| s.iter().copied()).collect();
        assert!(self.terminal.can_dispatch_csi(&p, action));
        self.terminal.csi_dispatch(&p, intermediates, action);
    }

    fn osc_dispatch(&mut self, params: &[&[u8]], _bell_terminated: bool) {
        self.terminal.osc_dispatch(params);
    }
}

impl Handler {
    fn new(rows: usize, cols: usize, scrollback_limit: usize) -> Handler {
        Handler { parser: vte::Parser::new(), terminal: Terminal::new(rows, cols, scrollback_limit) }
    }

    fn with_theme(rows: usize, cols: usize, scrollback_limit: usize, fg: Color, bg: Color) -> Handler {
        Handler { parser: vte::Parser::new(), terminal: Terminal::with_theme(rows, cols, scrollback_limit, fg, bg) }
    }

    fn process(&mut self, data: &[u8]) {
        let mut performer = Performer { terminal: &mut self.terminal };
        for &byte in data {
            self.parser.advance(&mut performer, byte);
        }
    }
}

#[test]
fn visible_lines_respects_window_height() {
    let mut grid = Grid::new(3, 2, 10);
    for row in 0..3 {
        for col in 0..2 {
            grid.write_cell(row, col, Cell::new(char::from(b'a' + row as u8)));
        }
    }
    grid.push_scrollback(vec![Cell::new('1'), Cell::new('1')]);
    grid.push_scrollback(vec![Cell::new('2'), Cell::new('2')]);
    grid.push_scrollback(vec![Cell::new('3'), Cell::new('3')]);
    grid.scroll_display_up(3);

    let visible = grid.visible_lines();
    assert_eq!(visible.len(), 3);
    assert_eq!(visible[0][0].character, '1');
    assert_eq!(visible[1][0].character, '2');
    assert_eq!(visible[2][0].character, '3');
}

#[test]
fn grid_uses_custom_default_colors() {
    let fg = Color::new(0xAA, 0xBB, 0xCC);
    let bg = Color::new(0x11, 0x22, 0x33);
    let grid = Grid::with_colors(2, 2, 10, fg, bg);

    let cell = grid.cell(0, 0).unwrap();
    assert_eq!(cell.foreground, fg);
    assert_eq!(cell.background, bg);
    assert_eq!(cell.character, ' ');
}

#[test]
fn selection_text_uses_visible_viewport() {
    let mut grid = Grid::new(2, 1, 10);
    grid.write_cell(0, 0, Cell::new('A'));
    grid.write_cell(1, 0, Cell::new('B'));
    grid.scroll_up();
    grid.write_cell(1, 0, Cell::new('C'));
    grid.scroll_display_up(1);

    let selection = Selection::new(SelectionPos::new(0, 0), SelectionPos::new(1, 0));
    assert_eq!(selection.text(&grid), "A\nB");
}

#[test]
fn word_bounds_expand_full_word() {
    let mut grid = Grid::new(1, 16, 10);
    for (idx, ch) in "hello world".chars().enumerate() {
        grid.write_cell(0, idx, Cell::new(ch));
    }

    let (start, end) = word_bounds(&grid, 0, 7).unwrap();
    assert_eq!(start, SelectionPos::new(0, 6));
    assert_eq!(end, SelectionPos::new(0, 10));
}

#[test]
fn line_bounds_trim_trailing_padding() {
    let mut grid = Grid::new(1, 8, 10);
    for (idx, ch) in "abc".chars().enumerate() {
        grid.write_cell(0, idx, Cell::new(ch));
    }

    let (start, end) = line_bounds(&grid, 0).unwrap();
    assert_eq!(start, SelectionPos::new(0, 0));
    assert_eq!(end, SelectionPos::new(0, 2));
}

#[test]
fn test_basic_output() {
    let mut handler = Handler::new(24, 80, 1000);
    handler.process(b"Hello, World!");
    let cell = handler.terminal.grid.cell(0, 0).unwrap();
    assert_eq!(cell.character, 'H');
    let cell = handler.terminal.grid.cell(0, 12).unwrap();
    assert_eq!(cell.character, '!');
}

#[test]
fn test_newline() {
    let mut handler = Handler::new(24, 80, 1000);
    handler.process(b"Line1\r\nLine2");
    let cell = handler.terminal.grid.cell(1, 0).unwrap();
    assert_eq!(cell.character, 'L');
}

#[test]
fn test_cursor_movement() {
    let mut handler = Handler::new(24, 80, 1000);
    handler.process(b"\x1b[5;10H");
    assert_eq!(handler.terminal.cursor.row, 4);
    assert_eq!(handler.terminal.cursor.col, 9);
}

#[test]
fn test_sgr_colors() {
    let mut handler = Handler::new(24, 80, 1000);
    handler.process(b"\x1b[31mRed\x1b[0m");
    let cell = handler.terminal.grid.cell(0, 0).unwrap();
    assert_eq!(cell.foreground, ansi_color(1));
}

#[test]
fn test_clear_screen() {
    let mut handler = Handler::new(24, 80, 1000);
    handler.process(b"Text\x1b[2J");
    let cell = handler.terminal.grid.cell(0, 0).unwrap();
    assert_eq!(cell.character, ' ');
}

#[test]
fn test_custom_theme_defaults() {
    let custom_fg = Color::new(0xAA, 0xBB, 0xCC);
    let custom_bg = Color::new(0x11, 0x22, 0x33);
    let mut handler = Handler::with_theme(24, 80, 1000, custom_fg, custom_bg);

    handler.process(b"\x1b[31mRed\x1b[0m ");
    let cell = handler.terminal.grid.cell(0, 3).unwrap();

    assert_eq!(cell.foreground, custom_fg);
    assert_eq!(cell.background, custom_bg);
}

#[test]
fn test_application_cursor_private_mode() {
    let mut handler = Handler::new(24, 80, 1000);
    handler.process(b"\x1b[?1h");
    assert!(handler.terminal.application_cursor_keys());

    handler.process(b"\x1b[?1l");
    assert!(!handler.terminal.application_cursor_keys());
}

#[test]
fn test_cursor_visibility_private_mode() {
    let mut handler = Handler::new(24, 80, 1000);
    assert!(handler.terminal.cursor.visible);

    handler.process(b"\x1b[?25l");
    assert!(!handler.terminal.cursor.visible);

    handler.process(b"\x1b[?25h");
    assert!(handler.terminal.cursor.visible);
}

#[test]
fn test_alternate_screen_restores_primary_contents() {
    let mut handler = Handler::new(4, 8, 100);
    handler.process(b"main");

    handler.process(b"\x1b[?1049h");
    assert!(handler.terminal.alternate_screen());
    let alt_cell = handler.terminal.grid.cell(0, 0).unwrap();
    assert_eq!(alt_cell.character, ' ');

    handler.process(b"alt");
    handler.process(b"\x1b[?1049l");

    assert!(!handler.terminal.alternate_screen());
    let main_cell = handler.terminal.grid.cell(0, 0).unwrap();
    assert_eq!(main_cell.character, 'm');
}

#[test]
fn test_mouse_and_bracketed_paste_private_modes() {
    let mut handler = Handler::new(24, 80, 1000);

    handler.process(b"\x1b[?1002h\x1b[?1006h\x1b[?2004h");
    assert_eq!(handler.terminal.mouse_tracking_mode(), MouseTrackingMode::ButtonEvent);
    assert!(handler.terminal.mouse_sgr_mode());
    assert!(handler.terminal.bracketed_paste_mode());

    handler.process(b"\x1b[?1002l\x1b[?1006l\x1b[?2004l");
    assert_eq!(handler.terminal.mouse_tracking_mode(), MouseTrackingMode::Disabled);
    assert!(!handler.terminal.mouse_sgr_mode());
    assert!(!handler.terminal.bracketed_paste_mode());
}

#[test]
fn test_ime_preedit_state() {
    let mut handler = Handler::new(24, 80, 1000);
    handler.terminal.set_ime_preedit("ni".to_string(), Some((1, 1)));
    let preedit = handler.terminal.ime_preedit().unwrap();
    assert_eq!(preedit.text, "ni");
    assert_eq!(preedit.cursor_range, Some((1, 1)));

    handler.terminal.clear_ime_preedit();
    assert!(handler.terminal.ime_preedit().is_none());
}

#[test]
fn alternate_screen_keeps_cursor_and_history() {
    let mut handler = Handler::new(4, 8, 100);
    handler.process(b"ab\r\ncd");
    let before_row = handler.terminal.cursor.row;
    let before_col = handler.terminal.cursor.col;
    handler.process(b"\x1b[?47h");
    assert_eq!(handler.terminal.cursor.row, 0);
    assert_eq!(handler.terminal.cursor.col, 0);
    handler.process(b"zz");
    handler.process(b"\x1b[?47l");
    assert_eq!(handler.terminal.cursor.row, before_row);
    assert_eq!(handler.terminal.cursor.col, before_col);
    assert_eq!(handler.terminal.grid.cell(1, 1).unwrap().character, 'd');
}

#[test]
fn osc_sets_title() {
    let mut handler = Handler::new(4, 8, 100);
    handler.process(b"\x1b]2;hello\x07");
    assert_eq!(handler.terminal.title, "hello");
    handler.process(b"\x1b]7;ignored\x07");
    assert_eq!(handler.terminal.title, "hello");
}

#[test]
fn wide_characters_take_two_columns() {
    let mut handler = Handler::new(2, 8, 10);
    handler.process("啊b".as_bytes());
    let lead = handler.terminal.grid.cell(0, 0).unwrap();
    assert_eq!(lead.character, '啊');
    assert!(lead.is_wide());
    assert!(handler.terminal.grid.cell(0, 1).unwrap().is_wide_spacer());
    assert_eq!(handler.terminal.grid.cell(0, 2).unwrap().character, 'b');
    assert_eq!(handler.terminal.cursor.col, 3);
}

#[test]
fn line_feed_at_bottom_moves_row_to_history() {
    let mut handler = Handler::new(2, 4, 10);
    handler.process(b"one\r\ntwo\r\nsix");
    assert_eq!(handler.terminal.grid.scrollback_len(), 1);
    assert_eq!(handler.terminal.grid.scrollback()[0][0].character, 'o');
    assert_eq!(handler.terminal.grid.cell(0, 0).unwrap().character, 't');
    assert_eq!(handler.terminal.grid.cell(1, 0).unwrap().character, 's');
}

#[test]
fn history_is_capped_at_limit() {
    let mut grid = Grid::new(2, 1, 2);
    for c in ['a', 'b', 'c', 'd'] {
        grid.write_cell(0, 0, Cell::new(c));
        grid.scroll_up();
    }
    assert_eq!(grid.scrollback_len(), 2);
    assert_eq!(grid.scrollback()[0][0].character, 'c');
    assert_eq!(grid.scrollback()[1][0].character, 'd');
}

#[test]
fn resize_keeps_history_within_limit() {
    let mut grid = Grid::new(3, 1, 1);
    for (row, c) in ['a', 'b', 'c'].into_iter().enumerate() {
        grid.write_cell(row, 0, Cell::new(c));
    }
    grid.resize(1, 1);
    assert_eq!(grid.rows(), 1);
    assert_eq!(grid.scrollback_len(), 1);
    assert_eq!(grid.scrollback()[0][0].character, 'b');
    assert_eq!(grid.cell(0, 0).unwrap().character, 'a');
}

#[test]
fn scroll_up_returns_the_row_that_left() {
    let mut grid = Grid::new(2, 1, 5);
    grid.write_cell(0, 0, Cell::new('x'));
    let row = grid.scroll_up().unwrap();
    assert_eq!(row[0].character, 'x');
    assert_eq!(grid.scrollback()[0][0].character, 'x');
    let mut single = Grid::new(1, 1, 5);
    assert!(single.scroll_up().is_none());
}

#[test]
fn extended_colors_select_palette_and_rgb() {
    let mut handler = Handler::new(2, 8, 10);
    handler.process(b"\x1b[38;5;196mA\x1b[48;2;1;2;3mB");
    let a = handler.terminal.grid.cell(0, 0).unwrap();
    assert_eq!(a.foreground, Color::new(255, 0, 0));
    let b = handler.terminal.grid.cell(0, 1).unwrap();
    assert_eq!(b.background, Color::new(1, 2, 3));
}

#[test]
fn erase_line_to_right() {
    let mut handler = Handler::new(2, 8, 10);
    handler.process(b"abcdef\x1b[1;3H\x1b[K");
    assert_eq!(handler.terminal.grid.cell(0, 1).unwrap().character, 'b');
    assert_eq!(handler.terminal.grid.cell(0, 2).unwrap().character, ' ');
    assert_eq!(handler.terminal.grid.cell(0, 5).unwrap().character, ' ');
}

#[test]
fn scroll_region_and_insert_lines() {
    let mut handler = Handler::new(4, 4, 10);
    handler.process(b"a\r\nb\r\nc\r\nd");
    handler.process(b"\x1b[2;3r");
    assert_eq!(handler.terminal.grid.scroll_top(), 1);
    assert_eq!(handler.terminal.grid.scroll_bottom(), 2);
    handler.process(b"\x1b[L");
    assert_eq!(handler.terminal.grid.cell(0, 0).unwrap().character, 'a');
    assert_eq!(handler.terminal.grid.cell(1, 0).unwrap().character, ' ');
    assert_eq!(handler.terminal.grid.cell(2, 0).unwrap().character, 'b');
    assert_eq!(handler.terminal.grid.cell(3, 0).unwrap().character, 'd');
}

#[test]
fn save_and_restore_cursor() {
    let mut handler = Handler::new(4, 8, 10);
    handler.process(b"\x1b[2;3H\x1b[s\x1b[4;8H\x1b[u");
    assert_eq!(handler.terminal.cursor.row, 1);
    assert_eq!(handler.terminal.cursor.col, 2);
}

#[test]
fn resize_clamps_cursor() {
    let mut handler = Handler::new(4, 8, 10);
    handler.process(b"\x1b[4;8H");
    handler.terminal.resize(2, 3);
    assert_eq!(handler.terminal.grid.rows(), 2);
    assert_eq!(handler.terminal.grid.cols(), 3);
    assert_eq!(handler.terminal.cursor.row, 1);
    assert_eq!(handler.terminal.cursor.col, 2);
}

#[test]
fn damage_clear_then_mark() {
    let mut damage = superpower::damage::DamageTracker::new(3);
    assert!(!damage.is_dirty());
    damage.mark_full_redraw();
    assert!(damage.is_dirty());
    assert_eq!(damage.dirty_rows(), vec![0, 1, 2]);
    damage.clear();
    assert!(!damage.is_dirty());
    damage.mark_row(1);
    assert!(damage.is_dirty());
    assert_eq!(damage.dirty_rows(), vec![1]);
}

#[test]
fn write_then_read_cell() {
    let mut grid = Grid::new(2, 2, 0);
    grid.write_cell(1, 0, Cell::new('x'));
    assert_eq!(grid.cell(1, 0).unwrap().character, 'x');
    assert_eq!(grid.cell(0, 0).unwrap().character, ' ');
    grid.write_cell(5, 5, Cell::new('y'));
    assert!(grid.cell(5, 5).is_none());
}

#[test]
fn selection_orders_endpoints_and_holds_span() {
    let s = Selection::new(SelectionPos::new(2, 1), SelectionPos::new(0, 3));
    assert_eq!(*s.start(), SelectionPos::new(0, 3));
    assert_eq!(*s.end(), SelectionPos::new(2, 1));
    assert!(s.contains(0, 3));
    assert!(s.contains(1, 0));
    assert!(s.contains(2, 1));
    assert!(!s.contains(2, 2));
    assert!(!s.contains(0, 2));
}

#[test]
fn color_channels_round_trip() {
    assert_eq!(Color::from_u32(0xAABBCC), Color::new(0xAA, 0xBB, 0xCC));
    assert_eq!(Color::from_u32(0xFF123456), Color::new(0x12, 0x34, 0x56));
}

#[test]
fn standard_mode_set_and_reset() {
    let mut handler = Handler::new(2, 8, 10);
    handler.process(b"\x1b[4h");
    handler.process(b"\x1b[4l");
    handler.process(b"\x1b[20h");
    let mut other = Handler::new(2, 8, 10);
    other.process(b"\x1b[20h");
    assert_eq!(handler.terminal.modes, other.terminal.modes);
}

#[test]
fn keys_encode_for_the_application() {
    let mut terminal = Terminal::new(4, 8, 100);
    let up = KeyInput { key: TermKey::ArrowUp, text: None };
    assert_eq!(handle_key_input(&up, &mut terminal, false, false, false), Some(b"\x1b[A".to_vec()));
    terminal.set_private_mode(1);
    assert_eq!(handle_key_input(&up, &mut terminal, false, false, false), Some(b"\x1bOA".to_vec()));
    assert_eq!(handle_key_input(&up, &mut terminal, false, false, true), Some(b"\x1b\x1bOA".to_vec()));
    let c = KeyInput { key: TermKey::KeyC, text: Some("c".to_string()) };
    assert_eq!(handle_key_input(&c, &mut terminal, false, true, false), Some(vec![0x03]));
    let x = KeyInput { key: TermKey::KeyX, text: Some("x".to_string()) };
    assert_eq!(handle_key_input(&x, &mut terminal, false, false, true), Some(b"\x1bx".to_vec()));
    assert_eq!(handle_key_input(&x, &mut terminal, false, false, false), Some(b"x".to_vec()));
    let none = KeyInput { key: TermKey::Other, text: None };
    assert_eq!(handle_key_input(&none, &mut terminal, false, false, false), None);
}

#[test]
fn shift_page_keys_scroll_the_view() {
    let mut terminal = Terminal::new(2, 4, 100);
    for _ in 0..5 {
        terminal.grid.scroll_up();
    }
    let page_up = KeyInput { key: TermKey::PageUp, text: None };
    assert_eq!(handle_key_input(&page_up, &mut terminal, true, false, false), None);
    assert_eq!(terminal.grid.display_offset(), 2);
    let home = KeyInput { key: TermKey::Home, text: None };
    handle_key_input(&home, &mut terminal, true, false, false);
    assert_eq!(terminal.grid.display_offset(), 5);
    let end = KeyInput { key: TermKey::End, text: None };
    handle_key_input(&end, &mut terminal, true, false, false);
    assert_eq!(terminal.grid.display_offset(), 0);
}
