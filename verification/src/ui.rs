use vstd::prelude::*;
use crate::cell::Color;
use crate::encode::chars_of;
use crate::text::{push_char, digits, signed_digits, push_digits, push_signed_digits};

verus! {

/// The built-in colour themes.
#[derive(Debug, Clone, Copy, PartialEq, Eq, Structural)]
pub enum ThemePreset {
    GraphiteDark,
    PaperLight,
    TerminalAmber,
}

/// A theme's display name.
pub open spec fn preset_label(p: ThemePreset) -> Seq<char> {
    match p {
        ThemePreset::GraphiteDark => "Graphite Dark"@,
        ThemePreset::PaperLight => "Paper Light"@,
        ThemePreset::TerminalAmber => "Terminal Amber"@,
    }
}

/// The theme after `p` in the cycle Graphite Dark, Paper Light, Terminal Amber.
pub open spec fn preset_after(p: ThemePreset) -> ThemePreset {
    match p {
        ThemePreset::GraphiteDark => ThemePreset::PaperLight,
        ThemePreset::PaperLight => ThemePreset::TerminalAmber,
        ThemePreset::TerminalAmber => ThemePreset::GraphiteDark,
    }
}

impl ThemePreset {
    /// The theme's display name.
    pub fn label(&self) -> (s: &'static str)
        ensures
            s@ == preset_label(*self),
    {
        match self {
            ThemePreset::GraphiteDark => "Graphite Dark",
            ThemePreset::PaperLight => "Paper Light",
            ThemePreset::TerminalAmber => "Terminal Amber",
        }
    }

    /// The next theme in the cycle.
    pub fn next(&self) -> (p: ThemePreset)
        ensures
            p == preset_after(*self),
    {
        match self {
            ThemePreset::GraphiteDark => ThemePreset::PaperLight,
            ThemePreset::PaperLight => ThemePreset::TerminalAmber,
            ThemePreset::TerminalAmber => ThemePreset::GraphiteDark,
        }
    }
}

/// The colours of the application window for one theme.
#[derive(Debug, Clone, Copy, PartialEq, Eq, Structural)]
pub struct AppTheme {
    pub preset: ThemePreset,
    pub window_bg: Color,
    pub toolbar_bg: Color,
    pub toolbar_fg: Color,
    pub tab_bg: Color,
    pub tab_active_bg: Color,
    pub panel_bg: Color,
    pub panel_section_bg: Color,
    pub status_bg: Color,
    pub terminal_panel_bg: Color,
    pub border: Color,
    pub text_primary: Color,
    pub text_secondary: Color,
    pub accent: Color,
    pub accent_soft: Color,
    pub button_bg: Color,
    pub button_active_bg: Color,
    pub danger_bg: Color,
    pub terminal_foreground: Color,
    pub terminal_background: Color,
}

/// The colours each preset defines.
pub open spec fn preset_theme(preset: ThemePreset) -> AppTheme {
    match preset {
        ThemePreset::GraphiteDark => AppTheme {
            preset,
            window_bg: Color::spec_from_u32(0x11161C),
            toolbar_bg: Color::spec_from_u32(0x1A222C),
            toolbar_fg: Color::spec_from_u32(0xF3F6F9),
            tab_bg: Color::spec_from_u32(0x202A35),
            tab_active_bg: Color::spec_from_u32(0x2B3A4A),
            panel_bg: Color::spec_from_u32(0x161E27),
            panel_section_bg: Color::spec_from_u32(0x1F2934),
            status_bg: Color::spec_from_u32(0x141B23),
            terminal_panel_bg: Color::spec_from_u32(0x11161C),
            border: Color::spec_from_u32(0x2F3E4E),
            text_primary: Color::spec_from_u32(0xE9EEF4),
            text_secondary: Color::spec_from_u32(0x9EACBA),
            accent: Color::spec_from_u32(0x4EB4FF),
            accent_soft: Color::spec_from_u32(0x264B67),
            button_bg: Color::spec_from_u32(0x233041),
            button_active_bg: Color::spec_from_u32(0x335272),
            danger_bg: Color::spec_from_u32(0x6D3542),
            terminal_foreground: Color::spec_from_u32(0xD6E2F0),
            terminal_background: Color::spec_from_u32(0x0E141B),
        },
        ThemePreset::PaperLight => AppTheme {
            preset,
            window_bg: Color::spec_from_u32(0xEEF1F4),
            toolbar_bg: Color::spec_from_u32(0xF8FAFC),
            toolbar_fg: Color::spec_from_u32(0x16202A),
            tab_bg: Color::spec_from_u32(0xDEE5ED),
            tab_active_bg: Color::spec_from_u32(0xFFFFFF),
            panel_bg: Color::spec_from_u32(0xFAFBFD),
            panel_section_bg: Color::spec_from_u32(0xE8EDF3),
            status_bg: Color::spec_from_u32(0xE3E9F0),
            terminal_panel_bg: Color::spec_from_u32(0xFFFFFF),
            border: Color::spec_from_u32(0xBCC8D4),
            text_primary: Color::spec_from_u32(0x1B2630),
            text_secondary: Color::spec_from_u32(0x5D6B79),
            accent: Color::spec_from_u32(0x1F78C8),
            accent_soft: Color::spec_from_u32(0xD8E9F8),
            button_bg: Color::spec_from_u32(0xE0E8F0),
            button_active_bg: Color::spec_from_u32(0xC4D9ED),
            danger_bg: Color::spec_from_u32(0xE8C9CF),
            terminal_foreground: Color::spec_from_u32(0x2A3847),
            terminal_background: Color::spec_from_u32(0xFFFFFF),
        },
        ThemePreset::TerminalAmber => AppTheme {
            preset,
            window_bg: Color::spec_from_u32(0x1B150F),
            toolbar_bg: Color::spec_from_u32(0x251C13),
            toolbar_fg: Color::spec_from_u32(0xFFE9C5),
            tab_bg: Color::spec_from_u32(0x302316),
            tab_active_bg: Color::spec_from_u32(0x47331C),
            panel_bg: Color::spec_from_u32(0x21180F),
            panel_section_bg: Color::spec_from_u32(0x322315),
            status_bg: Color::spec_from_u32(0x241A10),
            terminal_panel_bg: Color::spec_from_u32(0x181108),
            border: Color::spec_from_u32(0x6A4B20),
            text_primary: Color::spec_from_u32(0xFFD79A),
            text_secondary: Color::spec_from_u32(0xC6A56E),
            accent: Color::spec_from_u32(0xF4B942),
            accent_soft: Color::spec_from_u32(0x5D431A),
            button_bg: Color::spec_from_u32(0x3C2C18),
            button_active_bg: Color::spec_from_u32(0x5A4121),
            danger_bg: Color::spec_from_u32(0x6A2E1C),
            terminal_foreground: Color::spec_from_u32(0xFFCA70),
            terminal_background: Color::spec_from_u32(0x0F0904),
        },
    }
}

impl AppTheme {
    /// The full colour set of a preset.
    pub fn from_preset(preset: ThemePreset) -> (t: AppTheme)
        ensures
            t == preset_theme(preset),
    {
        match preset {
            ThemePreset::GraphiteDark => AppTheme {
                preset,
                window_bg: Color::from_u32(0x11161C),
                toolbar_bg: Color::from_u32(0x1A222C),
                toolbar_fg: Color::from_u32(0xF3F6F9),
                tab_bg: Color::from_u32(0x202A35),
                tab_active_bg: Color::from_u32(0x2B3A4A),
                panel_bg: Color::from_u32(0x161E27),
                panel_section_bg: Color::from_u32(0x1F2934),
                status_bg: Color::from_u32(0x141B23),
                terminal_panel_bg: Color::from_u32(0x11161C),
                border: Color::from_u32(0x2F3E4E),
                text_primary: Color::from_u32(0xE9EEF4),
                text_secondary: Color::from_u32(0x9EACBA),
                accent: Color::from_u32(0x4EB4FF),
                accent_soft: Color::from_u32(0x264B67),
                button_bg: Color::from_u32(0x233041),
                button_active_bg: Color::from_u32(0x335272),
                danger_bg: Color::from_u32(0x6D3542),
                terminal_foreground: Color::from_u32(0xD6E2F0),
                terminal_background: Color::from_u32(0x0E141B),
            },
            ThemePreset::PaperLight => AppTheme {
                preset,
                window_bg: Color::from_u32(0xEEF1F4),
                toolbar_bg: Color::from_u32(0xF8FAFC),
                toolbar_fg: Color::from_u32(0x16202A),
                tab_bg: Color::from_u32(0xDEE5ED),
                tab_active_bg: Color::from_u32(0xFFFFFF),
                panel_bg: Color::from_u32(0xFAFBFD),
                panel_section_bg: Color::from_u32(0xE8EDF3),
                status_bg: Color::from_u32(0xE3E9F0),
                terminal_panel_bg: Color::from_u32(0xFFFFFF),
                border: Color::from_u32(0xBCC8D4),
                text_primary: Color::from_u32(0x1B2630),
                text_secondary: Color::from_u32(0x5D6B79),
                accent: Color::from_u32(0x1F78C8),
                accent_soft: Color::from_u32(0xD8E9F8),
                button_bg: Color::from_u32(0xE0E8F0),
                button_active_bg: Color::from_u32(0xC4D9ED),
                danger_bg: Color::from_u32(0xE8C9CF),
                terminal_foreground: Color::from_u32(0x2A3847),
                terminal_background: Color::from_u32(0xFFFFFF),
            },
            ThemePreset::TerminalAmber => AppTheme {
                preset,
                window_bg: Color::from_u32(0x1B150F),
                toolbar_bg: Color::from_u32(0x251C13),
                toolbar_fg: Color::from_u32(0xFFE9C5),
                tab_bg: Color::from_u32(0x302316),
                tab_active_bg: Color::from_u32(0x47331C),
                panel_bg: Color::from_u32(0x21180F),
                panel_section_bg: Color::from_u32(0x322315),
                status_bg: Color::from_u32(0x241A10),
                terminal_panel_bg: Color::from_u32(0x181108),
                border: Color::from_u32(0x6A4B20),
                text_primary: Color::from_u32(0xFFD79A),
                text_secondary: Color::from_u32(0xC6A56E),
                accent: Color::from_u32(0xF4B942),
                accent_soft: Color::from_u32(0x5D431A),
                button_bg: Color::from_u32(0x3C2C18),
                button_active_bg: Color::from_u32(0x5A4121),
                danger_bg: Color::from_u32(0x6A2E1C),
                terminal_foreground: Color::from_u32(0xFFCA70),
                terminal_background: Color::from_u32(0x0F0904),
            },
        }
    }

    /// The theme's display name.
    pub fn name(&self) -> (s: &'static str)
        ensures
            s@ == preset_label(self.preset),
    {
        self.preset.label()
    }
}

/// A tab as the window shows it.
#[derive(Debug, Clone)]
pub struct TabView {
    pub title: String,
    pub is_active: bool,
    pub is_exited: bool,
}

/// What the status bar shows.
#[derive(Debug, Clone)]
pub struct StatusView {
    pub shell_label: String,
    pub terminal_cols: usize,
    pub terminal_rows: usize,
    pub is_scrolled: bool,
    pub theme_name: String,
    pub exit_code: Option<i32>,
}

/// The greeting shown in an empty terminal.
#[derive(Debug, Clone)]
pub struct WelcomeView {
    pub title: String,
    pub subtitle: String,
    pub hints: Vec<String>,
}

/// What a click on an interactive part of the window does.
#[derive(Debug, Clone, Copy, PartialEq, Eq, Structural)]
pub enum UiAction {
    CreateTab,
    ToggleSettings,
    CycleTheme,
    SelectTheme(ThemePreset),
    ActivateTab(usize),
    CloseTab(usize),
    DecreaseFont,
    IncreaseFont,
    CopySelection,
    PasteClipboard,
    ClearTerminal,
    ScrollToBottom,
}

/// `text` cut to at most `max_chars` characters: unchanged when it fits, else its first
/// `max_chars - 3` characters (none when `max_chars < 3`) followed by `...`.
pub open spec fn truncated(text: Seq<char>, max_chars: nat) -> Seq<char> {
    if text.len() <= max_chars {
        text
    } else {
        text.take(if max_chars >= 3 { max_chars - 3 } else { 0 }) + "..."@
    }
}

/// Cuts `text` to `max_chars` characters, marking a cut with `...`.
pub fn truncate_text(text: &str, max_chars: usize) -> (s: String)
    ensures
        s@ == truncated(text@, max_chars as nat),
{
    let chars = chars_of(text);
    if chars.len() <= max_chars {
        return text.to_owned();
    }
    let keep = max_chars.saturating_sub(3);
    let mut s = String::new();
    let mut i: usize = 0;
    while i < keep
        invariant
            i <= keep,
            keep < chars@.len(),
            chars@ == text@,
            s@ == text@.take(i as int),
        decreases keep - i,
    {
        push_char(&mut s, chars[i]);
        i = i + 1;
        assert(s@ =~= text@.take(i as int));
    }
    s.append("...");
    s
}

/// The title a tab shows: cut to 20 characters, or to 18 followed by `  [exit]` once its
/// shell has exited.
pub open spec fn tab_title(title: Seq<char>, is_exited: bool) -> Seq<char> {
    if is_exited {
        truncated(title, 18) + "  [exit]"@
    } else {
        truncated(title, 20)
    }
}

/// The title a tab shows.
pub fn tab_label(tab: &TabView) -> (s: String)
    ensures
        s@ == tab_title(tab.title@, tab.is_exited),
{
    if tab.is_exited {
        let mut s = truncate_text(tab.title.as_str(), 18);
        s.append("  [exit]");
        s
    } else {
        truncate_text(tab.title.as_str(), 20)
    }
}

/// The status line: shell, size, whether the view is scrolled back, theme, and the exit code
/// once the shell has exited.
pub open spec fn status_line(
    shell_label: Seq<char>,
    cols: nat,
    rows: nat,
    is_scrolled: bool,
    theme_name: Seq<char>,
    exit_code: Option<i32>,
) -> Seq<char> {
    shell_label + "  |  "@ + digits(cols) + "x"@ + digits(rows) + "  |  "@
        + (if is_scrolled { "Scrolled"@ } else { "Live"@ }) + "  |  "@ + theme_name
        + match exit_code {
            Some(code) => "  |  Exit "@ + signed_digits(code as int),
            None => Seq::empty(),
        }
}

/// The text of the status bar.
pub fn status_text(status: &StatusView) -> (s: String)
    ensures
        s@ == status_line(status.shell_label@, status.terminal_cols as nat, status.terminal_rows as nat,
            status.is_scrolled, status.theme_name@, status.exit_code),
{
    let mut s = String::new();
    s.append(status.shell_label.as_str());
    s.append("  |  ");
    push_digits(&mut s, status.terminal_cols as u64);
    s.append("x");
    push_digits(&mut s, status.terminal_rows as u64);
    s.append("  |  ");
    if status.is_scrolled {
        s.append("Scrolled");
    } else {
        s.append("Live");
    }
    s.append("  |  ");
    s.append(status.theme_name.as_str());
    match status.exit_code {
        Some(code) => {
            s.append("  |  Exit ");
            push_signed_digits(&mut s, code as i64);
        },
        None => {},
    }
    s
}

} // verus!
