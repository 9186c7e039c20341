use vstd::prelude::*;
use vstd::utf8::encode_utf8;
use crate::cell::Color;
use crate::encode::{chars_of, push_utf8};
use crate::text::push_char;

verus! {

/// The shell started in each tab.
#[derive(Debug, Clone)]
pub struct ShellConfig {
    pub program: String,
    pub args: Vec<String>,
}

/// The initial window size and the padding around the terminal text, in pixels.
#[derive(Debug, Clone, Copy, PartialEq, Eq, Structural)]
pub struct WindowConfig {
    pub width: u32,
    pub height: u32,
    pub padding_x: u32,
    pub padding_y: u32,
}

/// How many history rows are kept.
#[derive(Debug, Clone, Copy, PartialEq, Eq, Structural)]
pub struct ScrollbackConfig {
    pub limit: usize,
}

/// The terminal's default colours, as `#RRGGBB` text.
#[derive(Debug, Clone)]
pub struct ColorsConfig {
    pub foreground: String,
    pub background: String,
}

pub fn default_shell_program() -> (s: String)
    ensures
        s@ == "cmd.exe"@,
{
    String::from_str("cmd.exe")
}

pub fn default_font_family() -> (s: String)
    ensures
        s@ == "Consolas"@,
{
    String::from_str("Consolas")
}

pub fn default_window_width() -> (n: u32)
    ensures
        n == 900,
{
    900
}

pub fn default_window_height() -> (n: u32)
    ensures
        n == 600,
{
    600
}

pub fn default_padding() -> (n: u32)
    ensures
        n == 2,
{
    2
}

pub fn default_scrollback_limit() -> (n: usize)
    ensures
        n == 10000,
{
    10000
}

pub fn default_fg() -> (s: String)
    ensures
        s@ == "#D4D4D4"@,
{
    String::from_str("#D4D4D4")
}

pub fn default_bg() -> (s: String)
    ensures
        s@ == "#1E1E1E"@,
{
    String::from_str("#1E1E1E")
}

impl Default for ShellConfig {
    fn default() -> (c: ShellConfig)
        ensures
            c.program@ == "cmd.exe"@,
            c.args@.len() == 0,
    {
        ShellConfig { program: default_shell_program(), args: Vec::new() }
    }
}

impl Default for WindowConfig {
    fn default() -> (c: WindowConfig)
        ensures
            c == (WindowConfig { width: 900, height: 600, padding_x: 2, padding_y: 2 }),
    {
        WindowConfig {
            width: default_window_width(),
            height: default_window_height(),
            padding_x: default_padding(),
            padding_y: default_padding(),
        }
    }
}

impl Default for ScrollbackConfig {
    fn default() -> (c: ScrollbackConfig)
        ensures
            c.limit == 10000,
    {
        ScrollbackConfig { limit: default_scrollback_limit() }
    }
}

impl Default for ColorsConfig {
    fn default() -> (c: ColorsConfig)
        ensures
            c.foreground@ == "#D4D4D4"@,
            c.background@ == "#1E1E1E"@,
    {
        ColorsConfig { foreground: default_fg(), background: default_bg() }
    }
}

/// The value of an ASCII hexadecimal digit.
pub open spec fn hex_value(b: u8) -> Option<u8> {
    if 48 <= b <= 57 {
        Some((b - 48) as u8)
    } else if 97 <= b <= 102 {
        Some((b - 87) as u8)
    } else if 65 <= b <= 70 {
        Some((b - 55) as u8)
    } else {
        None
    }
}

/// What `u8::from_str_radix` with radix 16 gives for the two-byte text `a b`: an optional
/// `+` sign followed by hexadecimal digits.
pub open spec fn hex_pair(a: u8, b: u8) -> Option<u8> {
    if a == 43 {
        hex_value(b)
    } else {
        match (hex_value(a), hex_value(b)) {
            (Some(x), Some(y)) => Some((x * 16 + y) as u8),
            _ => None,
        }
    }
}

/// Whether byte `b` continues a multi-byte UTF-8 character.
pub open spec fn is_continuation(b: u8) -> bool {
    0x80 <= b < 0xC0
}

/// The UTF-8 bytes after a leading `#`.
pub open spec fn color_digits(s: Seq<char>) -> Seq<u8> {
    encode_utf8(s.drop_first())
}

/// Whether reading `s` as a colour cuts a character in two: it is `#` and six bytes, and the
/// second or (after a valid first pair) the third byte pair starts inside a character.
pub open spec fn color_text_panics(s: Seq<char>) -> bool {
    let b = color_digits(s);
    &&& s.len() > 0
    &&& s[0] == '#'
    &&& b.len() == 6
    &&& (is_continuation(b[2]) || (hex_pair(b[0], b[1]) is Some && is_continuation(b[4])))
}

/// The colour written `#RRGGBB` (each pair two hexadecimal digits, or `+` and one digit).
pub open spec fn color_from_hex(s: Seq<char>) -> Option<Color> {
    let b = color_digits(s);
    if s.len() == 0 || s[0] != '#' || b.len() != 6 {
        None
    } else {
        match (hex_pair(b[0], b[1]), hex_pair(b[2], b[3]), hex_pair(b[4], b[5])) {
            (Some(r), Some(g), Some(bl)) => Some(Color { r, g, b: bl }),
            _ => None,
        }
    }
}

fn hex_value_of(b: u8) -> (r: Option<u8>)
    ensures
        r == hex_value(b),
{
    if 48 <= b && b <= 57 {
        Some(b - 48)
    } else if 97 <= b && b <= 102 {
        Some(b - 87)
    } else if 65 <= b && b <= 70 {
        Some(b - 55)
    } else {
        None
    }
}

fn hex_pair_of(a: u8, b: u8) -> (r: Option<u8>)
    ensures
        r == hex_pair(a, b),
{
    if a == 43 {
        return hex_value_of(b);
    }
    match (hex_value_of(a), hex_value_of(b)) {
        (Some(x), Some(y)) => Some(x * 16 + y),
        _ => None,
    }
}

/// The UTF-8 bytes of `s` after its first character.
fn digits_after_first(s: &str) -> (b: Vec<u8>)
    requires
        s@.len() > 0,
    ensures
        b@ == color_digits(s@),
{
    let chars = chars_of(s);
    let mut rest = String::new();
    let mut i: usize = 1;
    while i < chars.len()
        invariant
            1 <= i <= chars@.len(),
            chars@ == s@,
            rest@ == s@.subrange(1, i as int),
        decreases chars@.len() - i,
    {
        push_char(&mut rest, chars[i]);
        i = i + 1;
        assert(rest@ =~= s@.subrange(1, i as int));
    }
    assert(rest@ =~= s@.drop_first());
    let mut b: Vec<u8> = Vec::new();
    push_utf8(&mut b, rest.as_str());
    assert(b@ =~= color_digits(s@));
    b
}

/// Whether `parse_color` would cut a character of `s` in two; it must not be called then.
pub fn parse_color_panics(s: &str) -> (r: bool)
    ensures
        r == color_text_panics(s@),
{
    let chars = chars_of(s);
    if chars.len() == 0 || chars[0] != '#' {
        return false;
    }
    let b = digits_after_first(s);
    if b.len() != 6 {
        return false;
    }
    (0x80 <= b[2] && b[2] < 0xC0) || (hex_pair_of(b[0], b[1]).is_some() && 0x80 <= b[4] && b[4] < 0xC0)
}

/// Reads a colour written `#RRGGBB`; anything else gives `None`.
pub fn parse_color(s: &str) -> (r: Option<Color>)
    requires
        !color_text_panics(s@),
    ensures
        r == color_from_hex(s@),
{
    let chars = chars_of(s);
    if chars.len() == 0 || chars[0] != '#' {
        return None;
    }
    let b = digits_after_first(s);
    if b.len() != 6 {
        return None;
    }
    let r = match hex_pair_of(b[0], b[1]) {
        Some(v) => v,
        None => return None,
    };
    let g = match hex_pair_of(b[2], b[3]) {
        Some(v) => v,
        None => return None,
    };
    let bl = match hex_pair_of(b[4], b[5]) {
        Some(v) => v,
        None => return None,
    };
    Some(Color::new(r, g, bl))
}

} // verus!
