use superpower::cell::{Cell, Color};
use superpower::config::{parse_color, parse_color_panics, ColorsConfig, ScrollbackConfig, ShellConfig, WindowConfig};
use superpower::fonts::{
    faces_in_font_file,
    extract_family_names, find_system_font_face, font_chain_faces, is_supported_font_file,
    normalize_aliased_alpha_bitmap, normalize_font_name, FontNameRecord, SystemFontFace,
};
use superpower::grid::Grid;
use superpower::input::{
    encode_bracketed_paste, encode_mouse_report, preedit_byte_range_to_char_range, preedit_visual_offset,
    shell_label, startup_banner, MouseButton, MouseReportKind,
};
use superpower::search::SearchState;
use superpower::shortcuts::{parse_action, parse_shortcut, Modifiers, ShortcutAction, ShortcutManager};
use superpower::input::TermKey;
use superpower::ui::{status_text, tab_label, truncate_text, AppTheme, StatusView, TabView, ThemePreset};
use superpower::session::{
    active_after_close, drag_mode_from_clicks, shell_exit_message, sync_tab_title, window_title,
    SelectionChange, SelectionDragMode, SelectionTracker,
};
use superpower::pty::{event_for_read, PtyEvent};

fn create_test_grid() -> Grid {
    let mut grid = Grid::new(3, 10, 100);
    for (i, ch) in "hello worl".chars().enumerate() {
        grid.write_cell(0, i, Cell::new(ch));
    }
    for (i, ch) in "test hello".chars().enumerate() {
        grid.write_cell(1, i, Cell::new(ch));
    }
    for (i, ch) in "HELLO test".chars().enumerate() {
        grid.write_cell(2, i, Cell::new(ch));
    }
    grid
}

#[test]
fn test_literal_search_case_sensitive() {
    let grid = create_test_grid();
    let mut search = SearchState::new("hello".to_string(), true, false);
    search.search(&grid).unwrap();

    assert_eq!(search.match_count(), 2);
    assert_eq!(search.current_index(), Some(1));
}

#[test]
fn test_literal_search_case_insensitive() {
    let grid = create_test_grid();
    let mut search = SearchState::new("hello".to_string(), false, false);
    search.search(&grid).unwrap();

    assert_eq!(search.match_count(), 3);
}

#[test]
fn test_navigation() {
    let grid = create_test_grid();
    let mut search = SearchState::new("hello".to_string(), false, false);
    search.search(&grid).unwrap();

    assert_eq!(search.current_index(), Some(1));

    search.next_match();
    assert_eq!(search.current_index(), Some(2));

    search.next_match();
    assert_eq!(search.current_index(), Some(3));

    search.next_match();
    assert_eq!(search.current_index(), Some(1));

    search.previous_match();
    assert_eq!(search.current_index(), Some(3));
}

#[test]
fn test_empty_query() {
    let grid = create_test_grid();
    let mut search = SearchState::new("".to_string(), true, false);
    search.search(&grid).unwrap();

    assert_eq!(search.match_count(), 0);
}

#[test]
fn literal_search_reports_positions_and_overlaps() {
    let mut grid = Grid::new(1, 6, 10);
    for (i, ch) in "aaa b".chars().enumerate() {
        grid.write_cell(0, i, Cell::new(ch));
    }
    let mut search = SearchState::new("aa".to_string(), true, false);
    search.search(&grid).unwrap();
    assert_eq!(search.match_count(), 2);
    assert_eq!(search.matches[0].row, 0);
    assert_eq!(search.matches[0].col, 0);
    assert_eq!(search.matches[1].col, 1);
    assert_eq!(search.matches[1].len, 2);
    let m = search.current().unwrap();
    assert_eq!(m.col, 0);
}

#[test]
fn regex_search_counts_history_first() {
    let mut grid = Grid::new(2, 6, 10);
    for (i, ch) in "ab12".chars().enumerate() {
        grid.write_cell(0, i, Cell::new(ch));
    }
    grid.scroll_up();
    for (i, ch) in "x345".chars().enumerate() {
        grid.write_cell(1, i, Cell::new(ch));
    }
    let mut search = SearchState::new("[0-9]+".to_string(), true, true);
    search.search(&grid).unwrap();
    assert_eq!(search.match_count(), 2);
    assert_eq!((search.matches[0].row, search.matches[0].col, search.matches[0].len), (0, 2, 2));
    assert_eq!((search.matches[1].row, search.matches[1].col, search.matches[1].len), (2, 1, 3));
}

#[test]
fn regex_search_ignoring_case() {
    let grid = create_test_grid();
    let mut search = SearchState::new("HEL+O".to_string(), false, true);
    search.search(&grid).unwrap();
    assert_eq!(search.match_count(), 3);
}

#[test]
fn invalid_regex_is_reported() {
    let grid = create_test_grid();
    let mut search = SearchState::new("(".to_string(), true, true);
    let err = search.search(&grid).unwrap_err();
    assert!(err.starts_with("Invalid regex: "));
    assert_eq!(search.match_count(), 0);
    assert_eq!(search.current_index(), None);
}

#[test]
fn search_starting_with_wide_character_is_refused() {
    let mut grid = Grid::new(1, 6, 10);
    for (i, ch) in "a\u{554a}b".chars().enumerate() {
        grid.write_cell(0, i, Cell::new(ch));
    }
    let mut search = SearchState::new("\u{554a}".to_string(), true, false);
    assert_eq!(search.try_search(&grid), None);
    assert_eq!(search.match_count(), 0);
    let mut later = SearchState::new("b".to_string(), true, false);
    assert_eq!(later.try_search(&grid), Some(Ok(())));
    assert_eq!((later.matches[0].row, later.matches[0].col, later.matches[0].len), (0, 4, 1));
    let mut absent = SearchState::new("\u{4e00}".to_string(), true, false);
    assert_eq!(absent.try_search(&grid), Some(Ok(())));
    assert_eq!(absent.match_count(), 0);
}

#[test]
fn navigation_without_matches_keeps_selection() {
    let mut search = SearchState::new("zz".to_string(), true, false);
    search.search(&create_test_grid()).unwrap();
    search.next_match();
    assert_eq!(search.current_index(), None);
    search.previous_match();
    assert_eq!(search.current_index(), None);
}

#[test]
fn test_parse_shortcut() {
    let shortcut = parse_shortcut("Ctrl+Shift+C").unwrap();
    assert_eq!(shortcut.key, "C");
    assert!(shortcut.ctrl);
    assert!(shortcut.shift);
    assert!(!shortcut.alt);
}

#[test]
fn test_parse_action() {
    assert_eq!(parse_action("copy"), Some(ShortcutAction::Copy));
    assert_eq!(parse_action("new_tab"), Some(ShortcutAction::NewTab));
    assert_eq!(parse_action("invalid"), None);
}

#[test]
fn test_default_shortcuts() {
    let manager = ShortcutManager::default();
    assert!(!manager.bindings().is_empty());
}

#[test]
fn parse_shortcut_trims_and_ignores_case() {
    let shortcut = parse_shortcut(" alt + f3 ").unwrap();
    assert_eq!(shortcut.key, "F3");
    assert!(shortcut.alt);
    assert!(!shortcut.ctrl);
    assert!(parse_shortcut("Ctrl+Shift").is_none());
    assert!(parse_shortcut("").is_none());
    assert_eq!(parse_action("SEARCH_NEXT"), Some(ShortcutAction::SearchNext));
}

#[test]
fn default_bindings_are_found() {
    let manager = ShortcutManager::default();
    let ctrl_shift = Modifiers { ctrl: true, shift: true, alt: false };
    assert_eq!(manager.find_action(TermKey::KeyC, ctrl_shift), Some(ShortcutAction::Copy));
    assert_eq!(manager.find_action(TermKey::Tab, ctrl_shift), Some(ShortcutAction::PreviousTab));
    let none = Modifiers { ctrl: false, shift: false, alt: false };
    assert_eq!(manager.find_action(TermKey::F3, none), Some(ShortcutAction::SearchNext));
    assert_eq!(manager.find_action(TermKey::KeyC, none), None);
    assert_eq!(manager.bindings().len(), 14);
}

#[test]
fn configured_binding_overrides_default() {
    let entries = vec![
        ("paste".to_string(), "Ctrl+Shift+C".to_string()),
        ("bogus".to_string(), "Ctrl+X".to_string()),
        ("copy".to_string(), "Alt+Q".to_string()),
    ];
    let manager = ShortcutManager::from_config(&entries);
    let ctrl_shift = Modifiers { ctrl: true, shift: true, alt: false };
    assert_eq!(manager.find_action(TermKey::KeyC, ctrl_shift), Some(ShortcutAction::Paste));
    let alt = Modifiers { ctrl: false, shift: false, alt: true };
    assert_eq!(manager.find_action(TermKey::KeyQ, alt), Some(ShortcutAction::Copy));
    let ctrl = Modifiers { ctrl: true, shift: false, alt: false };
    assert_eq!(manager.find_action(TermKey::KeyX, ctrl), None);
    assert_eq!(manager.bindings().len(), 15);
}

#[test]
fn bracketed_paste_wraps_payload() {
    let encoded = encode_bracketed_paste("hello");
    assert_eq!(encoded, b"\x1b[200~hello\x1b[201~");
}

#[test]
fn encode_sgr_mouse_press() {
    let encoded = encode_mouse_report(MouseReportKind::Press(MouseButton::Left), 4, 9, true, false, false, false).unwrap();
    assert_eq!(encoded, b"\x1b[<0;10;5M");
}

#[test]
fn encode_legacy_mouse_release() {
    let encoded = encode_mouse_report(MouseReportKind::Release(MouseButton::Left), 0, 0, false, false, false, false).unwrap();
    assert_eq!(encoded.len(), 6);
    assert_eq!(&encoded[..3], b"\x1b[M");
}

#[test]
fn mouse_reports_with_modifiers_and_wheel() {
    let encoded = encode_mouse_report(MouseReportKind::WheelUp, 0, 0, true, true, false, true).unwrap();
    assert_eq!(encoded, b"\x1b[<84;1;1M");
    let released = encode_mouse_report(MouseReportKind::Release(MouseButton::Right), 1, 2, true, false, false, false).unwrap();
    assert_eq!(released, b"\x1b[<2;3;2m");
    assert!(encode_mouse_report(MouseReportKind::Press(MouseButton::Back), 0, 0, true, false, false, false).is_none());
    let legacy = encode_mouse_report(MouseReportKind::Press(MouseButton::Middle), 300, 1, false, false, false, false).unwrap();
    assert_eq!(legacy, vec![0x1B, b'[', b'M', 33, 34, 255]);
}

#[test]
fn preedit_range_maps_to_char_indices() {
    let range = preedit_byte_range_to_char_range("啊b", (3, 4));
    assert_eq!(range, (1, 2));
}

#[test]
fn preedit_visual_offset_counts_wide_chars() {
    assert_eq!(preedit_visual_offset("啊b", 1), 2);
    assert_eq!(preedit_visual_offset("啊b", 2), 3);
}

#[test]
fn shell_label_uses_file_name() {
    assert_eq!(shell_label("C:\\Windows\\System32\\cmd.exe"), "cmd.exe");
    assert_eq!(shell_label("powershell"), "powershell");
}

#[test]
fn startup_banner_contains_shell_and_shortcuts() {
    let banner = startup_banner("cmd.exe".to_string());
    assert!(banner.contains("cmd.exe"));
    assert!(banner.contains("Ctrl+Shift+T"));
}

#[test]
fn normalize_aliased_alpha_bitmap_expands_low_range_values() {
    let mut bitmap = vec![0, 8, 16];
    normalize_aliased_alpha_bitmap(&mut bitmap);
    assert_eq!(bitmap, vec![0, 127, 255]);
}

#[test]
fn normalize_aliased_alpha_bitmap_keeps_full_range_values() {
    let mut bitmap = vec![0, 64, 255];
    normalize_aliased_alpha_bitmap(&mut bitmap);
    assert_eq!(bitmap, vec![0, 64, 255]);
}

#[test]
fn normalize_font_name_ignores_spacing_and_case() {
    assert_eq!(normalize_font_name("Cascadia Code"), "cascadiacode");
    assert_eq!(normalize_font_name("Segoe-UI_Emoji"), "segoeuiemoji");
}

#[test]
fn font_files_are_recognized_by_extension() {
    assert!(is_supported_font_file("C:\\Windows\\Fonts\\arial.TTF"));
    assert!(is_supported_font_file("fonts/msyh.ttc"));
    assert!(!is_supported_font_file("fonts/readme.txt"));
    assert!(!is_supported_font_file("fonts/.ttf"));
    assert!(!is_supported_font_file("fonts/"));
}

fn face(path: &str, index: u32, names: &[&str]) -> SystemFontFace {
    SystemFontFace {
        path: path.to_string(),
        collection_index: index,
        family_names: names.iter().map(|n| n.to_string()).collect(),
    }
}

#[test]
fn system_fonts_are_matched_by_normalized_family() {
    let faces = vec![
        face("a.ttf", 0, &["Consolas"]),
        face("seguiemj.ttf", 0, &["Segoe UI Emoji"]),
        face("arial.ttf", 0, &["Arial"]),
    ];
    let found = find_system_font_face(&faces, "segoe-ui emoji").unwrap();
    assert_eq!(found.path, "seguiemj.ttf");
    assert!(find_system_font_face(&faces, "Missing").is_none());
    assert_eq!(font_chain_faces(&faces, "consolas"), vec![0, 1, 2]);
    assert_eq!(font_chain_faces(&faces, "Arial"), vec![2, 1]);
}

#[test]
fn family_names_skip_other_records_and_repeats() {
    let records = vec![
        FontNameRecord { name_id: 1, text: Some("Consolas".to_string()) },
        FontNameRecord { name_id: 2, text: Some("Regular".to_string()) },
        FontNameRecord { name_id: 4, text: Some("Consolas".to_string()) },
        FontNameRecord { name_id: 16, text: Some(String::new()) },
        FontNameRecord { name_id: 4, text: None },
        FontNameRecord { name_id: 4, text: Some("Consolas Regular".to_string()) },
    ];
    assert_eq!(extract_family_names(&records), vec!["Consolas".to_string(), "Consolas Regular".to_string()]);
}

#[test]
fn test_parse_color() {
    let color = parse_color("#FF0000").unwrap();
    assert_eq!(color.r, 255);
    assert_eq!(color.g, 0);
    assert_eq!(color.b, 0);
}

#[test]
fn parse_color_rejects_malformed_text() {
    assert_eq!(parse_color("#1e1E1e"), Some(Color::new(0x1E, 0x1E, 0x1E)));
    assert_eq!(parse_color("#+F0000"), Some(Color::new(0x0F, 0, 0)));
    assert_eq!(parse_color("FF0000"), None);
    assert_eq!(parse_color("#FF00"), None);
    assert_eq!(parse_color("#GG0000"), None);
    assert!(!parse_color_panics("#FF0000"));
    assert!(parse_color_panics("#aé123"));
}

#[test]
fn config_defaults() {
    let shell = ShellConfig::default();
    assert_eq!(shell.program, "cmd.exe");
    assert!(shell.args.is_empty());
    let window = WindowConfig::default();
    assert_eq!((window.width, window.height, window.padding_x, window.padding_y), (900, 600, 2, 2));
    assert_eq!(ScrollbackConfig::default().limit, 10000);
    let colors = ColorsConfig::default();
    assert_eq!(colors.foreground, "#D4D4D4");
    assert_eq!(colors.background, "#1E1E1E");
}

#[test]
fn themes_cycle_and_name_themselves() {
    let p = ThemePreset::GraphiteDark;
    assert_eq!(p.next(), ThemePreset::PaperLight);
    assert_eq!(p.next().next().next(), p);
    assert_eq!(p.label(), "Graphite Dark");
    let theme = AppTheme::from_preset(ThemePreset::TerminalAmber);
    assert_eq!(theme.name(), "Terminal Amber");
    assert_eq!(theme.accent, Color::new(0xF4, 0xB9, 0x42));
    assert_eq!(AppTheme::from_preset(ThemePreset::PaperLight).terminal_background, Color::new(0xFF, 0xFF, 0xFF));
}

#[test]
fn truncation_marks_cut_text() {
    assert_eq!(truncate_text("short", 10), "short");
    assert_eq!(truncate_text("abcdefghij", 6), "abc...");
    assert_eq!(truncate_text("abcdef", 2), "...");
    assert_eq!(truncate_text("啊啊啊啊", 3), "...");
}

#[test]
fn tab_and_status_text() {
    let tab = TabView { title: "a very long tab title here".to_string(), is_active: true, is_exited: true };
    assert_eq!(tab_label(&tab), "a very long tab...  [exit]");
    let status = StatusView {
        shell_label: "cmd.exe".to_string(),
        terminal_cols: 80,
        terminal_rows: 24,
        is_scrolled: false,
        theme_name: "Graphite Dark".to_string(),
        exit_code: Some(-1),
    };
    assert_eq!(status_text(&status), "cmd.exe  |  80x24  |  Live  |  Graphite Dark  |  Exit -1");
}

#[test]
fn click_runs_choose_selection_unit() {
    assert_eq!(drag_mode_from_clicks(1), SelectionDragMode::Char);
    assert_eq!(drag_mode_from_clicks(2), SelectionDragMode::Word);
    assert_eq!(drag_mode_from_clicks(3), SelectionDragMode::Line);
    let mut grid = Grid::new(1, 16, 10);
    for (idx, ch) in "hello world".chars().enumerate() {
        grid.write_cell(0, idx, Cell::new(ch));
    }
    let mut tracker = SelectionTracker::new();
    assert!(matches!(tracker.press(&grid, 0, 7, true), SelectionChange::Clear));
    match tracker.press(&grid, 0, 7, true) {
        SelectionChange::Replace(s) => {
            assert_eq!((s.start().row, s.start().col, s.end().col), (0, 6, 10));
        }
        _ => panic!("double click selects a word"),
    }
    match tracker.press(&grid, 0, 7, true) {
        SelectionChange::Replace(s) => assert_eq!((s.start().col, s.end().col), (0, 10)),
        _ => panic!("triple click selects the line"),
    }
    assert_eq!(tracker.click_count, 3);
    assert!(matches!(tracker.press(&grid, 0, 7, false), SelectionChange::Clear));
    assert_eq!(tracker.click_count, 1);
    tracker.release();
    assert!(!tracker.selecting);
}

#[test]
fn tab_bookkeeping() {
    assert_eq!(active_after_close(2, 0, 3), 1);
    assert_eq!(active_after_close(2, 2, 3), 1);
    assert_eq!(active_after_close(0, 1, 3), 0);
    assert_eq!(shell_exit_message(0), "\r\n[SuperPower] shell exited with code 0\r\n");
    assert_eq!(sync_tab_title("cmd.exe", "  vim  "), Some("vim".to_string()));
    assert_eq!(sync_tab_title("vim", "vim "), None);
    assert_eq!(sync_tab_title("vim", "   "), None);
    assert_eq!(window_title(Some("vim")), "SuperPower Terminal - vim");
    assert_eq!(window_title(None), "SuperPower Terminal");
}

#[test]
fn reads_become_events() {
    let buf = [1u8, 2, 3, 4];
    match event_for_read(Some(2), &buf) {
        (PtyEvent::Data(d), true) => assert_eq!(d, vec![1, 2]),
        _ => panic!("data expected"),
    }
    assert!(matches!(event_for_read(Some(0), &buf), (PtyEvent::Exit(0), false)));
    assert!(matches!(event_for_read(None, &buf), (PtyEvent::Exit(-1), false)));
}

fn minimal_font(family: &str) -> Vec<u8> {
    fn be16(v: &mut Vec<u8>, x: u16) {
        v.extend_from_slice(&x.to_be_bytes());
    }
    fn be32(v: &mut Vec<u8>, x: u32) {
        v.extend_from_slice(&x.to_be_bytes());
    }
    let name_text: Vec<u8> = family.encode_utf16().flat_map(|u| u.to_be_bytes()).collect();
    let mut head = vec![0u8; 54];
    head[18..20].copy_from_slice(&1000u16.to_be_bytes());
    let hhea = vec![0u8; 36];
    let mut maxp = Vec::new();
    be32(&mut maxp, 0x0000_5000);
    be16(&mut maxp, 1);
    let mut name = Vec::new();
    be16(&mut name, 0);
    be16(&mut name, 1);
    be16(&mut name, 18);
    for x in [3u16, 1, 0x409, 1, name_text.len() as u16, 0] {
        be16(&mut name, x);
    }
    name.extend_from_slice(&name_text);
    let tables: [(&[u8; 4], &Vec<u8>); 4] = [(b"head", &head), (b"hhea", &hhea), (b"maxp", &maxp), (b"name", &name)];
    let mut font = Vec::new();
    be32(&mut font, 0x0001_0000);
    for x in [4u16, 0, 0, 0] {
        be16(&mut font, x);
    }
    let mut offset = 12 + 16 * tables.len();
    for (tag, data) in tables.iter() {
        font.extend_from_slice(&tag[..]);
        be32(&mut font, 0);
        be32(&mut font, offset as u32);
        be32(&mut font, data.len() as u32);
        offset += data.len();
    }
    for (_, data) in tables.iter() {
        font.extend_from_slice(data);
    }
    font
}

#[test]
fn font_file_faces_carry_their_family_names() {
    let faces = faces_in_font_file("C:\\Windows\\Fonts\\test.ttf", &minimal_font("Test Sans"));
    assert_eq!(faces.len(), 1);
    assert_eq!(faces[0].path, "C:\\Windows\\Fonts\\test.ttf");
    assert_eq!(faces[0].collection_index, 0);
    assert_eq!(faces[0].family_names, vec!["Test Sans".to_string()]);
}

#[test]
fn unreadable_font_file_has_no_faces() {
    assert!(faces_in_font_file("broken.ttf", b"not a font").is_empty());
}

#[test]
fn shortcut_key_case_does_not_matter() {
    assert_eq!(parse_shortcut("ctrl+shift+c"), parse_shortcut("Ctrl+Shift+C"));
    assert_eq!(parse_action("New_Tab"), Some(ShortcutAction::NewTab));
}
