use vstd::prelude::*;
use vstd::string::StringSliceAdditionalSpecFns;
use vstd::utf8::encode_utf8;

use crate::cell::{char_width, spec_char_width};
use crate::terminal::{Part, Terminal};
use crate::encode::{
    char_utf8_len, chars_of, decimal, lemma_encode_utf8_push, push_bytes, push_decimal, push_utf8,
};

verus! {

/// Mouse buttons as the window system reports them.
#[derive(Debug, Clone, Copy, PartialEq, Eq, Structural)]
pub enum MouseButton {
    Left,
    Right,
    Middle,
    Back,
    Forward,
    Other(u16),
}

/// A mouse event to report to the application.
#[derive(Debug, Clone, Copy, PartialEq, Eq, Structural)]
pub enum MouseReportKind {
    Press(MouseButton),
    Release(MouseButton),
    /// Motion, with the button held if any.
    Motion(Option<MouseButton>),
    WheelUp,
    WheelDown,
}

/// Protocol button number of a mouse button (left 0, middle 1, right 2); none for others.
pub open spec fn spec_button_code(button: MouseButton) -> Option<usize> {
    match button {
        MouseButton::Left => Some(0),
        MouseButton::Middle => Some(1),
        MouseButton::Right => Some(2),
        _ => None,
    }
}

/// Protocol button number of a mouse button.
pub fn button_code(button: MouseButton) -> (c: Option<usize>)
    ensures
        c == spec_button_code(button),
{
    match button {
        MouseButton::Left => Some(0),
        MouseButton::Middle => Some(1),
        MouseButton::Right => Some(2),
        _ => None,
    }
}

/// Modifier bits of a mouse report: shift 4, alt 8, ctrl 16.
pub open spec fn mouse_modifiers(shift: bool, alt: bool, ctrl: bool) -> usize {
    ((if shift { 4usize } else { 0 }) + (if alt { 8usize } else { 0 }) + (if ctrl { 16usize } else { 0 })) as usize
}

/// Button value of a report before modifiers: the button number, motion adds 32 (3 when no
/// button is held), the wheel is 64/65; none for buttons without a number.
pub open spec fn report_base(kind: MouseReportKind) -> Option<usize> {
    match kind {
        MouseReportKind::Press(b) => spec_button_code(b),
        MouseReportKind::Release(b) => spec_button_code(b),
        MouseReportKind::Motion(Some(b)) => match spec_button_code(b) {
            Some(c) => Some((c + 32) as usize),
            None => None,
        },
        MouseReportKind::Motion(None) => Some(35),
        MouseReportKind::WheelUp => Some(64),
        MouseReportKind::WheelDown => Some(65),
    }
}

/// The bytes reporting mouse event `kind` at (`row`, `col`): SGR form
/// `ESC [ < b ; x ; y M/m`, or the legacy `ESC [ M` form with coordinates capped at 223.
pub open spec fn spec_mouse_report(kind: MouseReportKind, row: usize, col: usize, sgr: bool,
    shift: bool, alt: bool, ctrl: bool) -> Option<Seq<u8>>
{
    let m = mouse_modifiers(shift, alt, ctrl);
    let x = col + 1;
    let y = row + 1;
    match report_base(kind) {
        None => None,
        Some(b) => {
            let base = b + m;
            let release = kind is Release;
            if sgr {
                Some(seq![0x1Bu8, 0x5Bu8, 0x3Cu8] + decimal(base as nat) + seq![0x3Bu8] + decimal(x as nat)
                    + seq![0x3Bu8] + decimal(y as nat) + seq![if release { 0x6Du8 } else { 0x4Du8 }])
            } else {
                let ex = ((if x < 223 { x } else { 223 }) + 32) as u8;
                let ey = ((if y < 223 { y } else { 223 }) + 32) as u8;
                let eb = ((if release { 3 + m } else { base }) + 32) as u8;
                Some(seq![0x1Bu8, 0x5Bu8, 0x4Du8, eb, ex, ey])
            }
        },
    }
}

/// Button value of a report before modifiers.
fn mouse_report_base(kind: MouseReportKind) -> (b: Option<usize>)
    ensures
        b == report_base(kind),
{
    match kind {
        MouseReportKind::Press(button) => button_code(button),
        MouseReportKind::Release(button) => button_code(button),
        MouseReportKind::Motion(button) => match button {
            Some(button) => match button_code(button) {
                Some(c) => Some(c + 32),
                None => None,
            },
            None => Some(35),
        },
        MouseReportKind::WheelUp => Some(64),
        MouseReportKind::WheelDown => Some(65),
    }
}

/// `ESC [ < b ; x ; y` followed by `m` for a release, `M` otherwise.
fn sgr_mouse_bytes(base: usize, x: usize, y: usize, release: bool) -> (v: Vec<u8>)
    ensures
        v@ == seq![0x1Bu8, 0x5Bu8, 0x3Cu8] + decimal(base as nat) + seq![0x3Bu8] + decimal(x as nat)
            + seq![0x3Bu8] + decimal(y as nat) + seq![if release { 0x6Du8 } else { 0x4Du8 }],
{
    let mut out: Vec<u8> = Vec::new();
    out.push(0x1B);
    out.push(0x5B);
    out.push(0x3C);
    push_decimal(&mut out, base);
    out.push(0x3B);
    push_decimal(&mut out, x);
    out.push(0x3B);
    push_decimal(&mut out, y);
    out.push(if release { 0x6D } else { 0x4D });
    assert(out@ =~= seq![0x1Bu8, 0x5Bu8, 0x3Cu8] + decimal(base as nat) + seq![0x3Bu8] + decimal(x as nat)
        + seq![0x3Bu8] + decimal(y as nat) + seq![if release { 0x6Du8 } else { 0x4Du8 }]);
    out
}

/// Encodes a mouse event for the application.
pub fn encode_mouse_report(
    kind: MouseReportKind,
    row: usize,
    col: usize,
    sgr_mode: bool,
    shift_pressed: bool,
    alt_pressed: bool,
    ctrl_pressed: bool,
) -> (r: Option<Vec<u8>>)
    requires
        row < usize::MAX,
        col < usize::MAX,
    ensures
        r is Some <==> spec_mouse_report(kind, row, col, sgr_mode, shift_pressed, alt_pressed, ctrl_pressed) is Some,
        r matches Some(v) ==> v@ == spec_mouse_report(kind, row, col, sgr_mode, shift_pressed, alt_pressed, ctrl_pressed)->0,
{
    let modifiers: usize = (if shift_pressed { 4 } else { 0 }) + (if alt_pressed { 8 } else { 0 })
        + (if ctrl_pressed { 16 } else { 0 });
    let base = match mouse_report_base(kind) {
        Some(v) => v + modifiers,
        None => return None,
    };
    let release = match kind {
        MouseReportKind::Release(_) => true,
        _ => false,
    };
    let x = col + 1;
    let y = row + 1;
    if sgr_mode {
        return Some(sgr_mouse_bytes(base, x, y, release));
    }
    let ex = ((if x < 223 { x } else { 223 }) + 32) as u8;
    let ey = ((if y < 223 { y } else { 223 }) + 32) as u8;
    let eb = ((if release { 3 + modifiers } else { base }) + 32) as u8;
    let mut out: Vec<u8> = Vec::new();
    out.push(0x1B);
    out.push(0x5B);
    out.push(0x4D);
    out.push(eb);
    out.push(ex);
    out.push(ey);
    assert(out@ =~= seq![0x1Bu8, 0x5Bu8, 0x4Du8, eb, ex, ey]);
    Some(out)
}

/// `ESC [ 200 ~`, the start marker of bracketed paste.
pub open spec fn paste_start() -> Seq<u8> {
    seq![0x1Bu8, 0x5Bu8, 0x32u8, 0x30u8, 0x30u8, 0x7Eu8]
}

/// `ESC [ 201 ~`, the end marker of bracketed paste.
pub open spec fn paste_end() -> Seq<u8> {
    seq![0x1Bu8, 0x5Bu8, 0x32u8, 0x30u8, 0x31u8, 0x7Eu8]
}

/// Wraps pasted text in the bracketed-paste markers.
pub fn encode_bracketed_paste(text: &str) -> (v: Vec<u8>)
    ensures
        v@ == paste_start() + encode_utf8(text@) + paste_end(),
{
    let mut payload: Vec<u8> = Vec::new();
    payload.push(0x1B);
    payload.push(0x5B);
    payload.push(0x32);
    payload.push(0x30);
    payload.push(0x30);
    payload.push(0x7E);
    push_utf8(&mut payload, text);
    payload.push(0x1B);
    payload.push(0x5B);
    payload.push(0x32);
    payload.push(0x30);
    payload.push(0x31);
    payload.push(0x7E);
    assert(payload@ =~= paste_start() + encode_utf8(text@) + paste_end());
    payload
}

/// Number of characters of `chars` that start before byte `off` of its UTF-8 encoding.
pub open spec fn chars_starting_before(chars: Seq<char>, off: int) -> nat
    decreases chars.len(),
{
    if chars.len() == 0 {
        0
    } else {
        let prev = chars.drop_last();
        chars_starting_before(prev, off) + (if encode_utf8(prev).len() < off { 1nat } else { 0nat })
    }
}

/// The index of the character containing UTF-8 byte offset `byte_offset` of `text`
/// (the character count when the offset is at or past the end).
pub fn byte_offset_to_char_index(text: &str, byte_offset: usize) -> (n: usize)
    ensures
        n == chars_starting_before(text@, byte_offset as int),
{
    let total = text.as_bytes().len();
    let chars = chars_of(text);
    let mut count: usize = 0;
    let mut bytes: usize = 0;
    let mut i: usize = 0;
    proof {
        assert(text.spec_bytes() == encode_utf8(text@));
    }
    while i < chars.len()
        invariant
            i <= chars@.len(),
            chars@ == text@,
            total == encode_utf8(text@).len(),
            count == chars_starting_before(chars@.take(i as int), byte_offset as int),
            count <= i,
            bytes == encode_utf8(chars@.take(i as int)).len(),
        decreases chars@.len() - i,
    {
        proof {
            assert(chars@.take(i as int + 1).drop_last() =~= chars@.take(i as int));
            lemma_encode_utf8_push(chars@.take(i as int), chars@[i as int]);
            assert(chars@.take(i as int).push(chars@[i as int]) =~= chars@.take(i as int + 1));
            crate::encode::lemma_encode_utf8_concat(chars@.take(i as int + 1), chars@.skip(i as int + 1));
            assert(chars@.take(i as int + 1) + chars@.skip(i as int + 1) =~= chars@);
        }
        if bytes < byte_offset {
            count = count + 1;
        }
        let w = char_utf8_len(chars[i]);
        bytes = bytes + w;
        i = i + 1;
    }
    assert(chars@.take(chars@.len() as int) =~= chars@);
    count
}

} // verus!

verus! {

/// Converts an input method's byte range within `text` into a character range.
pub fn preedit_byte_range_to_char_range(text: &str, range: (usize, usize)) -> (r: (usize, usize))
    ensures
        r == (chars_starting_before(text@, range.0 as int) as usize, chars_starting_before(text@, range.1 as int) as usize),
{
    let start = byte_offset_to_char_index(text, range.0);
    let end = byte_offset_to_char_index(text, range.1);
    (start, end)
}

/// Total display width of a character sequence.
pub open spec fn width_sum(chars: Seq<char>) -> nat
    decreases chars.len(),
{
    if chars.len() == 0 {
        0
    } else {
        width_sum(chars.drop_last()) + spec_char_width(chars.last())
    }
}

/// Grid columns taken by the first `cursor_chars` characters of composition text `text`.
pub fn preedit_visual_offset(text: &str, cursor_chars: usize) -> (n: usize)
    requires
        width_sum(text@.take(min_int(cursor_chars as int, text@.len() as int))) <= usize::MAX,
    ensures
        n == width_sum(text@.take(min_int(cursor_chars as int, text@.len() as int))),
{
    let chars = chars_of(text);
    let stop = if cursor_chars < chars.len() { cursor_chars } else { chars.len() };
    let mut sum: usize = 0;
    let mut i: usize = 0;
    while i < stop
        invariant
            i <= stop,
            stop <= chars@.len(),
            chars@ == text@,
            stop == min_int(cursor_chars as int, text@.len() as int),
            width_sum(chars@.take(stop as int)) <= usize::MAX,
            sum == width_sum(chars@.take(i as int)),
        decreases stop - i,
    {
        proof {
            assert(chars@.take(i as int + 1).drop_last() =~= chars@.take(i as int));
            lemma_width_sum_prefix(chars@.take(stop as int), i as int + 1);
            assert(chars@.take(stop as int).take(i as int + 1) =~= chars@.take(i as int + 1));
        }
        sum = sum + char_width(chars[i]);
        i = i + 1;
    }
    sum
}

pub open spec fn min_int(a: int, b: int) -> int {
    if a < b { a } else { b }
}

/// Widths are non-negative, so a prefix is never wider than the whole.
pub proof fn lemma_width_sum_prefix(s: Seq<char>, k: int)
    requires
        0 <= k <= s.len(),
    ensures
        width_sum(s.take(k)) <= width_sum(s),
    decreases s.len(),
{
    if k < s.len() {
        assert(s.drop_last().take(k) =~= s.take(k));
        lemma_width_sum_prefix(s.drop_last(), k);
    } else {
        assert(s.take(k) =~= s);
    }
}

} // verus!

verus! {

/// Path separators on the platform the terminal targets.
pub open spec fn is_sep(c: char) -> bool {
    c == '/' || c == '\\'
}

/// Length of a leading drive prefix such as `C:` (0 when there is none).
pub open spec fn drive_prefix_len(s: Seq<char>) -> int {
    if s.len() >= 2 && s[1] == ':' && (('a' <= s[0] && s[0] <= 'z') || ('A' <= s[0] && s[0] <= 'Z')) { 2 } else { 0 }
}

/// End of the last real component of `s[start..end]`: trailing separators and `.`
/// components are dropped.
pub open spec fn component_end(s: Seq<char>, start: int, end: int) -> int
    decreases end - start,
{
    if end <= start {
        end
    } else if is_sep(s[end - 1]) {
        component_end(s, start, end - 1)
    } else if s[end - 1] == '.' && (end - 1 == start || is_sep(s[end - 2])) {
        component_end(s, start, end - 1)
    } else {
        end
    }
}

/// Start of the component ending at `end`.
pub open spec fn component_start(s: Seq<char>, start: int, end: int) -> int
    decreases end - start,
{
    if end <= start || is_sep(s[end - 1]) { end } else { component_start(s, start, end - 1) }
}

/// The file name of path `s`: its last component after a drive prefix, unless that is
/// missing or `..`.
pub open spec fn file_name(s: Seq<char>) -> Option<Seq<char>> {
    let start = drive_prefix_len(s);
    let end = component_end(s, start, s.len() as int);
    let begin = component_start(s, start, end);
    let name = s.subrange(begin, end);
    if name.len() == 0 || name == seq!['.', '.'] { None } else { Some(name) }
}

/// The file name of `path`, if it has one.
pub fn file_name_of(path: &str) -> (r: Option<String>)
    ensures
        r is Some <==> file_name(path@) is Some,
        r matches Some(n) ==> n@ == file_name(path@)->0,
{
    let chars = chars_of(path);
    let n = chars.len();
    let start: usize = if n >= 2 && chars[1] == ':' && (('a' <= chars[0] && chars[0] <= 'z') || ('A' <= chars[0] && chars[0] <= 'Z')) { 2 } else { 0 };
    let ghost s = chars@;
    let mut end = n;
    while end > start
        invariant
            start <= end <= n,
            n == s.len(),
            s == chars@,
            start == drive_prefix_len(s),
            component_end(s, start as int, end as int) == component_end(s, start as int, n as int),
        ensures
            component_end(s, start as int, end as int) == end,
        decreases end,
    {
        let c = chars[end - 1];
        if c == '/' || c == '\\' {
            end = end - 1;
        } else if c == '.' && (end - 1 == start || chars[end - 2] == '/' || chars[end - 2] == '\\') {
            end = end - 1;
        } else {
            break;
        }
    }
    let mut begin = end;
    while begin > start
        invariant
            start <= begin <= end,
            end <= n,
            n == s.len(),
            s == chars@,
            component_start(s, start as int, begin as int) == component_start(s, start as int, end as int),
        ensures
            component_start(s, start as int, begin as int) == begin,
        decreases begin,
    {
        let c = chars[begin - 1];
        if c == '/' || c == '\\' {
            break;
        }
        begin = begin - 1;
    }
    let is_dotdot = end - begin == 2 && chars[begin] == '.' && chars[begin + 1] == '.';
    proof {
        assert(component_end(s, start as int, end as int) == end);
        let name = s.subrange(begin as int, end as int);
        if is_dotdot {
            assert(name =~= seq!['.', '.']);
        }
        if name == seq!['.', '.'] {
            assert(name.len() == 2);
            assert(name[0] == '.');
        }
    }
    if end == begin || is_dotdot {
        return None;
    }
    let mut out = String::new();
    let mut i = begin;
    while i < end
        invariant
            begin <= i <= end,
            end <= n,
            n == s.len(),
            s == chars@,
            out@ == s.subrange(begin as int, i as int),
        decreases end - i,
    {
        crate::text::push_char(&mut out, chars[i]);
        i = i + 1;
        assert(out@ =~= s.subrange(begin as int, i as int));
    }
    Some(out)
}

/// The name shown for a shell: the file name of its path, or the path itself when it has none.
pub fn shell_label(program: &str) -> (s: String)
    ensures
        s@ == (match file_name(program@) { Some(n) => n, None => program@ }),
{
    match file_name_of(program) {
        Some(name) => name,
        None => program.to_owned(),
    }
}

} // verus!

verus! {

/// The first line shown in a new tab: the shell's name and the main shortcuts.
pub fn startup_banner(shell_name: String) -> (s: String)
    ensures
        s@ == "[SuperPower] "@ + shell_name@
            + " ready - Ctrl+Shift+T new tab, Ctrl+Shift+C/V copy paste\r\n\r\n"@,
{
    let mut s = String::from_str("[SuperPower] ");
    s.append(shell_name.as_str());
    s.append(" ready - Ctrl+Shift+T new tab, Ctrl+Shift+C/V copy paste\r\n\r\n");
    s
}

} // verus!

verus! {

/// Physical keys the terminal distinguishes; everything else is `Other`.
#[derive(Debug, Clone, Copy, PartialEq, Eq, Structural)]
pub enum TermKey {
    KeyA,
    KeyB,
    KeyC,
    KeyD,
    KeyE,
    KeyF,
    KeyG,
    KeyH,
    KeyI,
    KeyJ,
    KeyK,
    KeyL,
    KeyM,
    KeyN,
    KeyO,
    KeyP,
    KeyQ,
    KeyR,
    KeyS,
    KeyT,
    KeyU,
    KeyV,
    KeyW,
    KeyX,
    KeyY,
    KeyZ,
    Digit0,
    Digit1,
    Digit2,
    Digit3,
    Digit4,
    Digit5,
    Digit6,
    Digit7,
    Digit8,
    Digit9,
    F1,
    F2,
    F3,
    F4,
    F5,
    F6,
    F7,
    F8,
    F9,
    F10,
    F11,
    F12,
    Numpad0,
    Numpad1,
    Numpad2,
    Numpad3,
    Numpad4,
    Numpad5,
    Numpad6,
    Numpad7,
    Numpad8,
    Numpad9,
    NumpadAdd,
    NumpadSubtract,
    NumpadMultiply,
    NumpadDivide,
    NumpadEnter,
    NumpadDecimal,
    Enter,
    Backspace,
    Tab,
    Escape,
    Space,
    ArrowUp,
    ArrowDown,
    ArrowLeft,
    ArrowRight,
    Home,
    End,
    Delete,
    PageUp,
    PageDown,
    Insert,
    Equal,
    Minus,
    Comma,
    Period,
    Slash,
    Backslash,
    BracketLeft,
    BracketRight,
    Other,
}

/// The fixed sequence a special key sends (arrow, editing, function and keypad keys);
/// none for keys that send text.
pub open spec fn special_key_bytes(key: TermKey, shift: bool, app_cursor: bool, keypad: bool) -> Option<Seq<u8>> {
    match key {
        TermKey::Enter => Some(seq![0x0Du8]),
        TermKey::Backspace => Some(seq![0x08u8]),
        TermKey::Tab => if shift { Some(seq![0x1Bu8, 0x5Bu8, 0x5Au8]) } else { Some(seq![0x09u8]) },
        TermKey::Escape => Some(seq![0x1Bu8]),
        TermKey::ArrowUp => if app_cursor { Some(seq![0x1Bu8, 0x4Fu8, 0x41u8]) } else { Some(seq![0x1Bu8, 0x5Bu8, 0x41u8]) },
        TermKey::ArrowDown => if app_cursor { Some(seq![0x1Bu8, 0x4Fu8, 0x42u8]) } else { Some(seq![0x1Bu8, 0x5Bu8, 0x42u8]) },
        TermKey::ArrowRight => if app_cursor { Some(seq![0x1Bu8, 0x4Fu8, 0x43u8]) } else { Some(seq![0x1Bu8, 0x5Bu8, 0x43u8]) },
        TermKey::ArrowLeft => if app_cursor { Some(seq![0x1Bu8, 0x4Fu8, 0x44u8]) } else { Some(seq![0x1Bu8, 0x5Bu8, 0x44u8]) },
        TermKey::Home => if app_cursor { Some(seq![0x1Bu8, 0x4Fu8, 0x48u8]) } else { Some(seq![0x1Bu8, 0x5Bu8, 0x48u8]) },
        TermKey::End => if app_cursor { Some(seq![0x1Bu8, 0x4Fu8, 0x46u8]) } else { Some(seq![0x1Bu8, 0x5Bu8, 0x46u8]) },
        TermKey::Delete => Some(seq![0x1Bu8, 0x5Bu8, 0x33u8, 0x7Eu8]),
        TermKey::PageUp => Some(seq![0x1Bu8, 0x5Bu8, 0x35u8, 0x7Eu8]),
        TermKey::PageDown => Some(seq![0x1Bu8, 0x5Bu8, 0x36u8, 0x7Eu8]),
        TermKey::Insert => Some(seq![0x1Bu8, 0x5Bu8, 0x32u8, 0x7Eu8]),
        TermKey::F1 => Some(seq![0x1Bu8, 0x4Fu8, 0x50u8]),
        TermKey::F2 => Some(seq![0x1Bu8, 0x4Fu8, 0x51u8]),
        TermKey::F3 => Some(seq![0x1Bu8, 0x4Fu8, 0x52u8]),
        TermKey::F4 => Some(seq![0x1Bu8, 0x4Fu8, 0x53u8]),
        TermKey::F5 => Some(seq![0x1Bu8, 0x5Bu8, 0x31u8, 0x35u8, 0x7Eu8]),
        TermKey::F6 => Some(seq![0x1Bu8, 0x5Bu8, 0x31u8, 0x37u8, 0x7Eu8]),
        TermKey::F7 => Some(seq![0x1Bu8, 0x5Bu8, 0x31u8, 0x38u8, 0x7Eu8]),
        TermKey::F8 => Some(seq![0x1Bu8, 0x5Bu8, 0x31u8, 0x39u8, 0x7Eu8]),
        TermKey::F9 => Some(seq![0x1Bu8, 0x5Bu8, 0x32u8, 0x30u8, 0x7Eu8]),
        TermKey::F10 => Some(seq![0x1Bu8, 0x5Bu8, 0x32u8, 0x31u8, 0x7Eu8]),
        TermKey::F11 => Some(seq![0x1Bu8, 0x5Bu8, 0x32u8, 0x33u8, 0x7Eu8]),
        TermKey::F12 => Some(seq![0x1Bu8, 0x5Bu8, 0x32u8, 0x34u8, 0x7Eu8]),
        TermKey::Numpad0 => if keypad { Some(seq![0x1Bu8, 0x4Fu8, 0x70u8]) } else { None },
        TermKey::Numpad1 => if keypad { Some(seq![0x1Bu8, 0x4Fu8, 0x71u8]) } else { None },
        TermKey::Numpad2 => if keypad { Some(seq![0x1Bu8, 0x4Fu8, 0x72u8]) } else { None },
        TermKey::Numpad3 => if keypad { Some(seq![0x1Bu8, 0x4Fu8, 0x73u8]) } else { None },
        TermKey::Numpad4 => if keypad { Some(seq![0x1Bu8, 0x4Fu8, 0x74u8]) } else { None },
        TermKey::Numpad5 => if keypad { Some(seq![0x1Bu8, 0x4Fu8, 0x75u8]) } else { None },
        TermKey::Numpad6 => if keypad { Some(seq![0x1Bu8, 0x4Fu8, 0x76u8]) } else { None },
        TermKey::Numpad7 => if keypad { Some(seq![0x1Bu8, 0x4Fu8, 0x77u8]) } else { None },
        TermKey::Numpad8 => if keypad { Some(seq![0x1Bu8, 0x4Fu8, 0x78u8]) } else { None },
        TermKey::Numpad9 => if keypad { Some(seq![0x1Bu8, 0x4Fu8, 0x79u8]) } else { None },
        TermKey::NumpadAdd => if keypad { Some(seq![0x1Bu8, 0x4Fu8, 0x6Bu8]) } else { None },
        TermKey::NumpadSubtract => if keypad { Some(seq![0x1Bu8, 0x4Fu8, 0x6Du8]) } else { None },
        TermKey::NumpadMultiply => if keypad { Some(seq![0x1Bu8, 0x4Fu8, 0x6Au8]) } else { None },
        TermKey::NumpadDivide => if keypad { Some(seq![0x1Bu8, 0x4Fu8, 0x6Fu8]) } else { None },
        TermKey::NumpadEnter => if keypad { Some(seq![0x1Bu8, 0x4Fu8, 0x4Du8]) } else { None },
        TermKey::NumpadDecimal => if keypad { Some(seq![0x1Bu8, 0x4Fu8, 0x6Eu8]) } else { None },
        _ => None,
    }
}

/// The fixed sequence a special key sends.
pub fn special_key_sequence(key: TermKey, shift: bool, app_cursor: bool, keypad: bool) -> (r: Option<Vec<u8>>)
    ensures
        r is Some <==> special_key_bytes(key, shift, app_cursor, keypad) is Some,
        r matches Some(v) ==> v@ == special_key_bytes(key, shift, app_cursor, keypad)->0,
{
    let r = match key {
        TermKey::Enter => { let mut v: Vec<u8> = Vec::new(); v.push(0x0D); Some(v) },
        TermKey::Backspace => { let mut v: Vec<u8> = Vec::new(); v.push(0x08); Some(v) },
        TermKey::Tab => if shift { { let mut v: Vec<u8> = Vec::new(); v.push(0x1B); v.push(0x5B); v.push(0x5A); Some(v) } } else { { let mut v: Vec<u8> = Vec::new(); v.push(0x09); Some(v) } },
        TermKey::Escape => { let mut v: Vec<u8> = Vec::new(); v.push(0x1B); Some(v) },
        TermKey::ArrowUp => if app_cursor { { let mut v: Vec<u8> = Vec::new(); v.push(0x1B); v.push(0x4F); v.push(0x41); Some(v) } } else { { let mut v: Vec<u8> = Vec::new(); v.push(0x1B); v.push(0x5B); v.push(0x41); Some(v) } },
        TermKey::ArrowDown => if app_cursor { { let mut v: Vec<u8> = Vec::new(); v.push(0x1B); v.push(0x4F); v.push(0x42); Some(v) } } else { { let mut v: Vec<u8> = Vec::new(); v.push(0x1B); v.push(0x5B); v.push(0x42); Some(v) } },
        TermKey::ArrowRight => if app_cursor { { let mut v: Vec<u8> = Vec::new(); v.push(0x1B); v.push(0x4F); v.push(0x43); Some(v) } } else { { let mut v: Vec<u8> = Vec::new(); v.push(0x1B); v.push(0x5B); v.push(0x43); Some(v) } },
        TermKey::ArrowLeft => if app_cursor { { let mut v: Vec<u8> = Vec::new(); v.push(0x1B); v.push(0x4F); v.push(0x44); Some(v) } } else { { let mut v: Vec<u8> = Vec::new(); v.push(0x1B); v.push(0x5B); v.push(0x44); Some(v) } },
        TermKey::Home => if app_cursor { { let mut v: Vec<u8> = Vec::new(); v.push(0x1B); v.push(0x4F); v.push(0x48); Some(v) } } else { { let mut v: Vec<u8> = Vec::new(); v.push(0x1B); v.push(0x5B); v.push(0x48); Some(v) } },
        TermKey::End => if app_cursor { { let mut v: Vec<u8> = Vec::new(); v.push(0x1B); v.push(0x4F); v.push(0x46); Some(v) } } else { { let mut v: Vec<u8> = Vec::new(); v.push(0x1B); v.push(0x5B); v.push(0x46); Some(v) } },
        TermKey::Delete => { let mut v: Vec<u8> = Vec::new(); v.push(0x1B); v.push(0x5B); v.push(0x33); v.push(0x7E); Some(v) },
        TermKey::PageUp => { let mut v: Vec<u8> = Vec::new(); v.push(0x1B); v.push(0x5B); v.push(0x35); v.push(0x7E); Some(v) },
        TermKey::PageDown => { let mut v: Vec<u8> = Vec::new(); v.push(0x1B); v.push(0x5B); v.push(0x36); v.push(0x7E); Some(v) },
        TermKey::Insert => { let mut v: Vec<u8> = Vec::new(); v.push(0x1B); v.push(0x5B); v.push(0x32); v.push(0x7E); Some(v) },
        TermKey::F1 => { let mut v: Vec<u8> = Vec::new(); v.push(0x1B); v.push(0x4F); v.push(0x50); Some(v) },
        TermKey::F2 => { let mut v: Vec<u8> = Vec::new(); v.push(0x1B); v.push(0x4F); v.push(0x51); Some(v) },
        TermKey::F3 => { let mut v: Vec<u8> = Vec::new(); v.push(0x1B); v.push(0x4F); v.push(0x52); Some(v) },
        TermKey::F4 => { let mut v: Vec<u8> = Vec::new(); v.push(0x1B); v.push(0x4F); v.push(0x53); Some(v) },
        TermKey::F5 => { let mut v: Vec<u8> = Vec::new(); v.push(0x1B); v.push(0x5B); v.push(0x31); v.push(0x35); v.push(0x7E); Some(v) },
        TermKey::F6 => { let mut v: Vec<u8> = Vec::new(); v.push(0x1B); v.push(0x5B); v.push(0x31); v.push(0x37); v.push(0x7E); Some(v) },
        TermKey::F7 => { let mut v: Vec<u8> = Vec::new(); v.push(0x1B); v.push(0x5B); v.push(0x31); v.push(0x38); v.push(0x7E); Some(v) },
        TermKey::F8 => { let mut v: Vec<u8> = Vec::new(); v.push(0x1B); v.push(0x5B); v.push(0x31); v.push(0x39); v.push(0x7E); Some(v) },
        TermKey::F9 => { let mut v: Vec<u8> = Vec::new(); v.push(0x1B); v.push(0x5B); v.push(0x32); v.push(0x30); v.push(0x7E); Some(v) },
        TermKey::F10 => { let mut v: Vec<u8> = Vec::new(); v.push(0x1B); v.push(0x5B); v.push(0x32); v.push(0x31); v.push(0x7E); Some(v) },
        TermKey::F11 => { let mut v: Vec<u8> = Vec::new(); v.push(0x1B); v.push(0x5B); v.push(0x32); v.push(0x33); v.push(0x7E); Some(v) },
        TermKey::F12 => { let mut v: Vec<u8> = Vec::new(); v.push(0x1B); v.push(0x5B); v.push(0x32); v.push(0x34); v.push(0x7E); Some(v) },
        TermKey::Numpad0 => if keypad { { let mut v: Vec<u8> = Vec::new(); v.push(0x1B); v.push(0x4F); v.push(0x70); Some(v) } } else { None },
        TermKey::Numpad1 => if keypad { { let mut v: Vec<u8> = Vec::new(); v.push(0x1B); v.push(0x4F); v.push(0x71); Some(v) } } else { None },
        TermKey::Numpad2 => if keypad { { let mut v: Vec<u8> = Vec::new(); v.push(0x1B); v.push(0x4F); v.push(0x72); Some(v) } } else { None },
        TermKey::Numpad3 => if keypad { { let mut v: Vec<u8> = Vec::new(); v.push(0x1B); v.push(0x4F); v.push(0x73); Some(v) } } else { None },
        TermKey::Numpad4 => if keypad { { let mut v: Vec<u8> = Vec::new(); v.push(0x1B); v.push(0x4F); v.push(0x74); Some(v) } } else { None },
        TermKey::Numpad5 => if keypad { { let mut v: Vec<u8> = Vec::new(); v.push(0x1B); v.push(0x4F); v.push(0x75); Some(v) } } else { None },
        TermKey::Numpad6 => if keypad { { let mut v: Vec<u8> = Vec::new(); v.push(0x1B); v.push(0x4F); v.push(0x76); Some(v) } } else { None },
        TermKey::Numpad7 => if keypad { { let mut v: Vec<u8> = Vec::new(); v.push(0x1B); v.push(0x4F); v.push(0x77); Some(v) } } else { None },
        TermKey::Numpad8 => if keypad { { let mut v: Vec<u8> = Vec::new(); v.push(0x1B); v.push(0x4F); v.push(0x78); Some(v) } } else { None },
        TermKey::Numpad9 => if keypad { { let mut v: Vec<u8> = Vec::new(); v.push(0x1B); v.push(0x4F); v.push(0x79); Some(v) } } else { None },
        TermKey::NumpadAdd => if keypad { { let mut v: Vec<u8> = Vec::new(); v.push(0x1B); v.push(0x4F); v.push(0x6B); Some(v) } } else { None },
        TermKey::NumpadSubtract => if keypad { { let mut v: Vec<u8> = Vec::new(); v.push(0x1B); v.push(0x4F); v.push(0x6D); Some(v) } } else { None },
        TermKey::NumpadMultiply => if keypad { { let mut v: Vec<u8> = Vec::new(); v.push(0x1B); v.push(0x4F); v.push(0x6A); Some(v) } } else { None },
        TermKey::NumpadDivide => if keypad { { let mut v: Vec<u8> = Vec::new(); v.push(0x1B); v.push(0x4F); v.push(0x6F); Some(v) } } else { None },
        TermKey::NumpadEnter => if keypad { { let mut v: Vec<u8> = Vec::new(); v.push(0x1B); v.push(0x4F); v.push(0x4D); Some(v) } } else { None },
        TermKey::NumpadDecimal => if keypad { { let mut v: Vec<u8> = Vec::new(); v.push(0x1B); v.push(0x4F); v.push(0x6E); Some(v) } } else { None },
        _ => None,
    };
    proof {
        if r is Some {
            assert(r->0@ =~= special_key_bytes(key, shift, app_cursor, keypad)->0);
        }
    }
    r
}

/// The control byte Ctrl+`key` sends (Ctrl+A = 1 ... Ctrl+Z = 26, then `[ \ ] 6 - /` and space).
pub open spec fn ctrl_byte(key: TermKey) -> Option<u8> {
    match key {
        TermKey::KeyA => Some(0x01u8),
        TermKey::KeyB => Some(0x02u8),
        TermKey::KeyC => Some(0x03u8),
        TermKey::KeyD => Some(0x04u8),
        TermKey::KeyE => Some(0x05u8),
        TermKey::KeyF => Some(0x06u8),
        TermKey::KeyG => Some(0x07u8),
        TermKey::KeyH => Some(0x08u8),
        TermKey::KeyI => Some(0x09u8),
        TermKey::KeyJ => Some(0x0Au8),
        TermKey::KeyK => Some(0x0Bu8),
        TermKey::KeyL => Some(0x0Cu8),
        TermKey::KeyM => Some(0x0Du8),
        TermKey::KeyN => Some(0x0Eu8),
        TermKey::KeyO => Some(0x0Fu8),
        TermKey::KeyP => Some(0x10u8),
        TermKey::KeyQ => Some(0x11u8),
        TermKey::KeyR => Some(0x12u8),
        TermKey::KeyS => Some(0x13u8),
        TermKey::KeyT => Some(0x14u8),
        TermKey::KeyU => Some(0x15u8),
        TermKey::KeyV => Some(0x16u8),
        TermKey::KeyW => Some(0x17u8),
        TermKey::KeyX => Some(0x18u8),
        TermKey::KeyY => Some(0x19u8),
        TermKey::KeyZ => Some(0x1Au8),
        TermKey::BracketLeft => Some(0x1Bu8),
        TermKey::Backslash => Some(0x1Cu8),
        TermKey::BracketRight => Some(0x1Du8),
        TermKey::Digit6 => Some(0x1Eu8),
        TermKey::Minus => Some(0x1Fu8),
        TermKey::Slash => Some(0x1Fu8),
        TermKey::Space => Some(0x00u8),
        _ => None,
    }
}

/// The control byte Ctrl+`key` sends.
pub fn ctrl_code(key: TermKey) -> (r: Option<u8>)
    ensures
        r == ctrl_byte(key),
{
    match key {
        TermKey::KeyA => Some(0x01),
        TermKey::KeyB => Some(0x02),
        TermKey::KeyC => Some(0x03),
        TermKey::KeyD => Some(0x04),
        TermKey::KeyE => Some(0x05),
        TermKey::KeyF => Some(0x06),
        TermKey::KeyG => Some(0x07),
        TermKey::KeyH => Some(0x08),
        TermKey::KeyI => Some(0x09),
        TermKey::KeyJ => Some(0x0A),
        TermKey::KeyK => Some(0x0B),
        TermKey::KeyL => Some(0x0C),
        TermKey::KeyM => Some(0x0D),
        TermKey::KeyN => Some(0x0E),
        TermKey::KeyO => Some(0x0F),
        TermKey::KeyP => Some(0x10),
        TermKey::KeyQ => Some(0x11),
        TermKey::KeyR => Some(0x12),
        TermKey::KeyS => Some(0x13),
        TermKey::KeyT => Some(0x14),
        TermKey::KeyU => Some(0x15),
        TermKey::KeyV => Some(0x16),
        TermKey::KeyW => Some(0x17),
        TermKey::KeyX => Some(0x18),
        TermKey::KeyY => Some(0x19),
        TermKey::KeyZ => Some(0x1A),
        TermKey::BracketLeft => Some(0x1B),
        TermKey::Backslash => Some(0x1C),
        TermKey::BracketRight => Some(0x1D),
        TermKey::Digit6 => Some(0x1E),
        TermKey::Minus => Some(0x1F),
        TermKey::Slash => Some(0x1F),
        TermKey::Space => Some(0x00),
        _ => None,
    }
}

} // verus!

verus! {

/// A key press: the physical key and the text the keyboard layout produced for it.
#[derive(Debug, Clone)]
pub struct KeyInput {
    pub key: TermKey,
    pub text: Option<String>,
}

/// Whether the optional text is present and non-empty.
pub open spec fn has_text(text: Option<Seq<char>>) -> bool {
    text is Some && text->0.len() > 0
}

/// What a text-producing key sends: AltGr text as typed, Ctrl combinations as control bytes,
/// other text as UTF-8 (ESC-prefixed with Alt).
pub open spec fn text_input_bytes(key: TermKey, text: Option<Seq<char>>, ctrl: bool, alt: bool) -> Option<Seq<u8>> {
    if ctrl && alt && has_text(text) {
        Some(encode_utf8(text->0))
    } else if ctrl {
        match ctrl_byte(key) {
            Some(c) => Some(seq![c]),
            None => None,
        }
    } else if has_text(text) {
        Some(if alt { seq![0x1Bu8] + encode_utf8(text->0) } else { encode_utf8(text->0) })
    } else {
        None
    }
}

/// The optional text as characters.
pub open spec fn text_view(text: Option<String>) -> Option<Seq<char>> {
    match text {
        Some(s) => Some(s@),
        None => None,
    }
}

/// Encodes a text-producing key press.
pub fn encode_text_input(event: &KeyInput, ctrl_pressed: bool, alt_pressed: bool) -> (r: Option<Vec<u8>>)
    ensures
        r is Some <==> text_input_bytes(event.key, text_view(event.text), ctrl_pressed, alt_pressed) is Some,
        r matches Some(v) ==> v@ == text_input_bytes(event.key, text_view(event.text), ctrl_pressed, alt_pressed)->0,
{
    let text_present = match &event.text {
        Some(t) => !t.as_str().is_empty(),
        None => false,
    };
    proof {
        if event.text is Some {
            let t = event.text->0;
            if t@.len() > 0 {
                assert(vstd::utf8::encode_utf8(t@).len() > 0) by {
                    assert(t@ =~= seq![t@[0]] + t@.drop_first());
                    crate::encode::lemma_encode_utf8_concat(seq![t@[0]], t@.drop_first());
                    crate::encode::lemma_encode_utf8_push(Seq::<char>::empty(), t@[0]);
                    assert(Seq::<char>::empty().push(t@[0]) =~= seq![t@[0]]);
                    vstd::utf8::char_is_scalar(t@[0]);
                }
            }
        }
    }
    if ctrl_pressed && alt_pressed && text_present {
        let mut v: Vec<u8> = Vec::new();
        match &event.text {
            Some(t) => push_utf8(&mut v, t.as_str()),
            None => {},
        }
        assert(v@ =~= text_input_bytes(event.key, text_view(event.text), ctrl_pressed, alt_pressed)->0);
        return Some(v);
    }
    if ctrl_pressed {
        return match ctrl_code(event.key) {
            Some(c) => {
                let mut v: Vec<u8> = Vec::new();
                v.push(c);
                assert(v@ =~= seq![c]);
                Some(v)
            },
            None => None,
        };
    }
    if !text_present {
        return None;
    }
    let mut v: Vec<u8> = Vec::new();
    if alt_pressed {
        v.push(0x1B);
    }
    match &event.text {
        Some(t) => push_utf8(&mut v, t.as_str()),
        None => {},
    }
    assert(v@ =~= text_input_bytes(event.key, text_view(event.text), ctrl_pressed, alt_pressed)->0);
    Some(v)
}

/// Whether Shift+`key` scrolls the view instead of sending input.
pub open spec fn is_scroll_key(key: TermKey) -> bool {
    key == TermKey::PageUp || key == TermKey::PageDown || key == TermKey::Home || key == TermKey::End
}

/// The bytes a key press sends to the application; special keys are ESC-prefixed with Alt.
pub open spec fn key_bytes(key: TermKey, text: Option<Seq<char>>, shift: bool, ctrl: bool, alt: bool,
    app_cursor: bool, keypad: bool) -> Option<Seq<u8>>
{
    if shift && is_scroll_key(key) {
        None
    } else {
        match special_key_bytes(key, shift, app_cursor, keypad) {
            Some(b) => Some(if alt { seq![0x1Bu8] + b } else { b }),
            None => text_input_bytes(key, text, ctrl, alt),
        }
    }
}

/// Handles a key press: Shift+PageUp/PageDown/Home/End scroll the view (and send nothing);
/// other keys are encoded for the application according to its cursor and keypad modes.
pub fn handle_key_input(
    event: &KeyInput,
    terminal: &mut Terminal,
    shift_pressed: bool,
    ctrl_pressed: bool,
    alt_pressed: bool,
) -> (r: Option<Vec<u8>>)
    requires
        old(terminal).wf(),
        shift_pressed && event.key == TermKey::PageUp ==> old(terminal).grid.offset() + old(terminal).grid.num_rows() <= usize::MAX,
        shift_pressed && event.key == TermKey::Home ==> old(terminal).grid.offset() + old(terminal).grid.scrollback_view().len() <= usize::MAX,
    ensures
        final(terminal).wf(),
        r is Some <==> key_bytes(event.key, text_view(event.text), shift_pressed, ctrl_pressed, alt_pressed,
            old(terminal).app_cursor(), old(terminal).cursor.app_mode) is Some,
        r matches Some(v) ==> v@ == key_bytes(event.key, text_view(event.text), shift_pressed, ctrl_pressed, alt_pressed,
            old(terminal).app_cursor(), old(terminal).cursor.app_mode)->0,
        !(shift_pressed && is_scroll_key(event.key)) ==> *final(terminal) == *old(terminal),
        shift_pressed && is_scroll_key(event.key) ==> {
            &&& final(terminal).same_except(old(terminal), set![Part::Grid, Part::Damage])
            &&& final(terminal).damage_marked(old(terminal), None, true)
            &&& final(terminal).grid.wf()
            &&& final(terminal).grid.same_but_offset(&old(terminal).grid)
            &&& final(terminal).grid.offset() == (if event.key == TermKey::PageUp {
                    crate::grid::min_nat((old(terminal).grid.offset() + old(terminal).grid.num_rows()) as nat, old(terminal).grid.scrollback_view().len())
                } else if event.key == TermKey::PageDown {
                    (if old(terminal).grid.offset() >= old(terminal).grid.num_rows() { (old(terminal).grid.offset() - old(terminal).grid.num_rows()) as nat } else { 0 })
                } else if event.key == TermKey::Home {
                    crate::grid::min_nat((old(terminal).grid.offset() + old(terminal).grid.scrollback_view().len()) as nat, old(terminal).grid.scrollback_view().len())
                } else {
                    0
                })
        },
{
    if shift_pressed {
        if event.key == TermKey::PageUp {
            let rows = terminal.grid.rows();
            terminal.grid.scroll_display_up(rows);
            terminal.damage.mark_full_redraw();
            return None;
        } else if event.key == TermKey::PageDown {
            let rows = terminal.grid.rows();
            terminal.grid.scroll_display_down(rows);
            terminal.damage.mark_full_redraw();
            return None;
        } else if event.key == TermKey::Home {
            let max = terminal.grid.scrollback_len();
            terminal.grid.scroll_display_up(max);
            terminal.damage.mark_full_redraw();
            return None;
        } else if event.key == TermKey::End {
            terminal.grid.reset_display_offset();
            terminal.damage.mark_full_redraw();
            return None;
        }
    }
    let app_cursor = terminal.application_cursor_keys();
    let keypad = terminal.keypad_application_mode();
    match special_key_sequence(event.key, shift_pressed, app_cursor, keypad) {
        Some(bytes) => {
            if alt_pressed {
                let mut prefixed: Vec<u8> = Vec::new();
                prefixed.push(0x1B);
                push_bytes(&mut prefixed, bytes.as_slice());
                assert(prefixed@ =~= seq![0x1Bu8] + bytes@);
                Some(prefixed)
            } else {
                Some(bytes)
            }
        },
        None => encode_text_input(event, ctrl_pressed, alt_pressed),
    }
}

} // verus!
