use vstd::prelude::*;
use crate::input::TermKey;
use crate::search::trim_end;
use crate::text::{text_is, spec_is_whitespace, is_whitespace, push_char, case_lower, to_lowercase, case_upper, to_uppercase};
use crate::encode::chars_of;

verus! {

/// What a shortcut does.
#[derive(Debug, Clone, Copy, PartialEq, Eq, Hash, Structural)]
pub enum ShortcutAction {
    Copy,
    Paste,
    NewTab,
    CloseTab,
    NextTab,
    PreviousTab,
    IncreaseFontSize,
    DecreaseFontSize,
    ResetFontSize,
    ToggleSettings,
    SwitchTheme,
    Search,
    SearchNext,
    SearchPrevious,
}

/// A key combination: the key's name in upper case and the modifiers held with it.
#[derive(Debug, Clone, PartialEq, Eq, Hash)]
pub struct Shortcut {
    pub key: String,
    pub ctrl: bool,
    pub shift: bool,
    pub alt: bool,
}

/// The modifier keys held during a key press.
#[derive(Debug, Clone, Copy, PartialEq, Eq, Structural)]
pub struct Modifiers {
    pub ctrl: bool,
    pub shift: bool,
    pub alt: bool,
}

/// A shortcut as a value: key name and modifiers.
pub open spec fn key_of(s: Shortcut) -> (Seq<char>, bool, bool, bool) {
    (s.key@, s.ctrl, s.shift, s.alt)
}

/// The name under which a key is bound; empty for keys that cannot be bound.
pub open spec fn key_name(k: TermKey) -> Seq<char> {
    match k {
        TermKey::KeyA => "A"@,
        TermKey::KeyB => "B"@,
        TermKey::KeyC => "C"@,
        TermKey::KeyD => "D"@,
        TermKey::KeyE => "E"@,
        TermKey::KeyF => "F"@,
        TermKey::KeyG => "G"@,
        TermKey::KeyH => "H"@,
        TermKey::KeyI => "I"@,
        TermKey::KeyJ => "J"@,
        TermKey::KeyK => "K"@,
        TermKey::KeyL => "L"@,
        TermKey::KeyM => "M"@,
        TermKey::KeyN => "N"@,
        TermKey::KeyO => "O"@,
        TermKey::KeyP => "P"@,
        TermKey::KeyQ => "Q"@,
        TermKey::KeyR => "R"@,
        TermKey::KeyS => "S"@,
        TermKey::KeyT => "T"@,
        TermKey::KeyU => "U"@,
        TermKey::KeyV => "V"@,
        TermKey::KeyW => "W"@,
        TermKey::KeyX => "X"@,
        TermKey::KeyY => "Y"@,
        TermKey::KeyZ => "Z"@,
        TermKey::Digit0 => "0"@,
        TermKey::Digit1 => "1"@,
        TermKey::Digit2 => "2"@,
        TermKey::Digit3 => "3"@,
        TermKey::Digit4 => "4"@,
        TermKey::Digit5 => "5"@,
        TermKey::Digit6 => "6"@,
        TermKey::Digit7 => "7"@,
        TermKey::Digit8 => "8"@,
        TermKey::Digit9 => "9"@,
        TermKey::Equal => "EQUAL"@,
        TermKey::Minus => "MINUS"@,
        TermKey::Comma => "COMMA"@,
        TermKey::Period => "PERIOD"@,
        TermKey::Tab => "TAB"@,
        TermKey::Space => "SPACE"@,
        TermKey::F1 => "F1"@,
        TermKey::F2 => "F2"@,
        TermKey::F3 => "F3"@,
        TermKey::F4 => "F4"@,
        TermKey::F5 => "F5"@,
        TermKey::F6 => "F6"@,
        TermKey::F7 => "F7"@,
        TermKey::F8 => "F8"@,
        TermKey::F9 => "F9"@,
        TermKey::F10 => "F10"@,
        TermKey::F11 => "F11"@,
        TermKey::F12 => "F12"@,
        _ => Seq::empty(),
    }
}

/// The name under which a key is bound; empty for keys that cannot be bound.
pub fn keycode_to_string(keycode: TermKey) -> (s: String)
    ensures
        s@ == key_name(keycode),
{
    match keycode {
        TermKey::KeyA => String::from_str("A"),
        TermKey::KeyB => String::from_str("B"),
        TermKey::KeyC => String::from_str("C"),
        TermKey::KeyD => String::from_str("D"),
        TermKey::KeyE => String::from_str("E"),
        TermKey::KeyF => String::from_str("F"),
        TermKey::KeyG => String::from_str("G"),
        TermKey::KeyH => String::from_str("H"),
        TermKey::KeyI => String::from_str("I"),
        TermKey::KeyJ => String::from_str("J"),
        TermKey::KeyK => String::from_str("K"),
        TermKey::KeyL => String::from_str("L"),
        TermKey::KeyM => String::from_str("M"),
        TermKey::KeyN => String::from_str("N"),
        TermKey::KeyO => String::from_str("O"),
        TermKey::KeyP => String::from_str("P"),
        TermKey::KeyQ => String::from_str("Q"),
        TermKey::KeyR => String::from_str("R"),
        TermKey::KeyS => String::from_str("S"),
        TermKey::KeyT => String::from_str("T"),
        TermKey::KeyU => String::from_str("U"),
        TermKey::KeyV => String::from_str("V"),
        TermKey::KeyW => String::from_str("W"),
        TermKey::KeyX => String::from_str("X"),
        TermKey::KeyY => String::from_str("Y"),
        TermKey::KeyZ => String::from_str("Z"),
        TermKey::Digit0 => String::from_str("0"),
        TermKey::Digit1 => String::from_str("1"),
        TermKey::Digit2 => String::from_str("2"),
        TermKey::Digit3 => String::from_str("3"),
        TermKey::Digit4 => String::from_str("4"),
        TermKey::Digit5 => String::from_str("5"),
        TermKey::Digit6 => String::from_str("6"),
        TermKey::Digit7 => String::from_str("7"),
        TermKey::Digit8 => String::from_str("8"),
        TermKey::Digit9 => String::from_str("9"),
        TermKey::Equal => String::from_str("EQUAL"),
        TermKey::Minus => String::from_str("MINUS"),
        TermKey::Comma => String::from_str("COMMA"),
        TermKey::Period => String::from_str("PERIOD"),
        TermKey::Tab => String::from_str("TAB"),
        TermKey::Space => String::from_str("SPACE"),
        TermKey::F1 => String::from_str("F1"),
        TermKey::F2 => String::from_str("F2"),
        TermKey::F3 => String::from_str("F3"),
        TermKey::F4 => String::from_str("F4"),
        TermKey::F5 => String::from_str("F5"),
        TermKey::F6 => String::from_str("F6"),
        TermKey::F7 => String::from_str("F7"),
        TermKey::F8 => String::from_str("F8"),
        TermKey::F9 => String::from_str("F9"),
        TermKey::F10 => String::from_str("F10"),
        TermKey::F11 => String::from_str("F11"),
        TermKey::F12 => String::from_str("F12"),
        _ => String::new(),
    }
}

impl Shortcut {
    /// A shortcut for `key` (upper-cased) with the given modifiers.
    pub fn new(key: &str, ctrl: bool, shift: bool, alt: bool) -> (s: Shortcut)
        ensures
            s.key@ == case_upper(key@),
            s.ctrl == ctrl,
            s.shift == shift,
            s.alt == alt,
    {
        Shortcut { key: to_uppercase(key), ctrl, shift, alt }
    }

    /// Whether a press of `keycode` with `modifiers` is this shortcut: same key name and
    /// exactly the same modifiers.
    pub fn matches(&self, keycode: TermKey, modifiers: Modifiers) -> (b: bool)
        ensures
            b == (key_of(*self) == (key_name(keycode), modifiers.ctrl, modifiers.shift, modifiers.alt)),
    {
        let name = keycode_to_string(keycode);
        let key_matches = name == self.key;
        key_matches && modifiers.ctrl == self.ctrl && modifiers.shift == self.shift && modifiers.alt == self.alt
    }
}

/// The action a configuration name stands for, once lower-cased.
pub open spec fn action_named(name: Seq<char>) -> Option<ShortcutAction> {
    if name == "copy"@ {
        Some(ShortcutAction::Copy)
    } else if name == "paste"@ {
        Some(ShortcutAction::Paste)
    } else if name == "new_tab"@ {
        Some(ShortcutAction::NewTab)
    } else if name == "close_tab"@ {
        Some(ShortcutAction::CloseTab)
    } else if name == "next_tab"@ {
        Some(ShortcutAction::NextTab)
    } else if name == "previous_tab"@ {
        Some(ShortcutAction::PreviousTab)
    } else if name == "increase_font_size"@ {
        Some(ShortcutAction::IncreaseFontSize)
    } else if name == "decrease_font_size"@ {
        Some(ShortcutAction::DecreaseFontSize)
    } else if name == "reset_font_size"@ {
        Some(ShortcutAction::ResetFontSize)
    } else if name == "toggle_settings"@ {
        Some(ShortcutAction::ToggleSettings)
    } else if name == "switch_theme"@ {
        Some(ShortcutAction::SwitchTheme)
    } else if name == "search"@ {
        Some(ShortcutAction::Search)
    } else if name == "search_next"@ {
        Some(ShortcutAction::SearchNext)
    } else if name == "search_previous"@ {
        Some(ShortcutAction::SearchPrevious)
    } else {
        None
    }
}

/// The action a lower-case configuration name stands for.
pub fn action_for_name(name: &String) -> (r: Option<ShortcutAction>)
    ensures
        r == action_named(name@),
{
    if text_is(name, "copy") {
        Some(ShortcutAction::Copy)
    } else if text_is(name, "paste") {
        Some(ShortcutAction::Paste)
    } else if text_is(name, "new_tab") {
        Some(ShortcutAction::NewTab)
    } else if text_is(name, "close_tab") {
        Some(ShortcutAction::CloseTab)
    } else if text_is(name, "next_tab") {
        Some(ShortcutAction::NextTab)
    } else if text_is(name, "previous_tab") {
        Some(ShortcutAction::PreviousTab)
    } else if text_is(name, "increase_font_size") {
        Some(ShortcutAction::IncreaseFontSize)
    } else if text_is(name, "decrease_font_size") {
        Some(ShortcutAction::DecreaseFontSize)
    } else if text_is(name, "reset_font_size") {
        Some(ShortcutAction::ResetFontSize)
    } else if text_is(name, "toggle_settings") {
        Some(ShortcutAction::ToggleSettings)
    } else if text_is(name, "switch_theme") {
        Some(ShortcutAction::SwitchTheme)
    } else if text_is(name, "search") {
        Some(ShortcutAction::Search)
    } else if text_is(name, "search_next") {
        Some(ShortcutAction::SearchNext)
    } else if text_is(name, "search_previous") {
        Some(ShortcutAction::SearchPrevious)
    } else {
        None
    }
}

/// The action named by `s`, ignoring case.
pub fn parse_action(s: &str) -> (r: Option<ShortcutAction>)
    ensures
        r == action_named(case_lower(s@)),
{
    let name = to_lowercase(s);
    action_for_name(&name)
}

/// The pieces of `s` between occurrences of `sep`; there is always at least one.
pub open spec fn split_on(s: Seq<char>, sep: char) -> Seq<Seq<char>>
    decreases s.len(),
{
    if s.len() == 0 {
        seq![Seq::empty()]
    } else {
        let rest = split_on(s.drop_last(), sep);
        if s.last() == sep {
            rest.push(Seq::empty())
        } else {
            rest.update(rest.len() - 1, rest.last().push(s.last()))
        }
    }
}

proof fn lemma_split_nonempty(s: Seq<char>, sep: char)
    ensures
        split_on(s, sep).len() >= 1,
    decreases s.len(),
{
    if s.len() > 0 {
        lemma_split_nonempty(s.drop_last(), sep);
    }
}

/// `s` without its leading whitespace.
pub open spec fn trim_start(s: Seq<char>) -> Seq<char>
    decreases s.len(),
{
    if s.len() > 0 && spec_is_whitespace(s[0]) {
        trim_start(s.drop_first())
    } else {
        s
    }
}

/// `s` without leading or trailing whitespace.
pub open spec fn trim(s: Seq<char>) -> Seq<char> {
    trim_start(trim_end(s))
}

/// Modifiers and key gathered from the pieces of a shortcut text, left to right: a piece
/// naming a modifier sets it, any other piece becomes the key.
pub open spec fn gather(parts: Seq<Seq<char>>) -> (bool, bool, bool, Seq<char>)
    decreases parts.len(),
{
    if parts.len() == 0 {
        (false, false, false, Seq::empty())
    } else {
        let (c, s, a, k) = gather(parts.drop_last());
        let word = case_lower(trim(parts.last()));
        if word == "ctrl"@ || word == "control"@ {
            (true, s, a, k)
        } else if word == "shift"@ {
            (c, true, a, k)
        } else if word == "alt"@ {
            (c, s, true, k)
        } else {
            (c, s, a, case_upper(word))
        }
    }
}

/// The shortcut a text such as `Ctrl+Shift+C` describes, as a value; none without a key.
pub open spec fn shortcut_from_text(text: Seq<char>) -> Option<(Seq<char>, bool, bool, bool)> {
    let (c, s, a, k) = gather(split_on(text, '+'));
    if k.len() == 0 {
        None
    } else {
        Some((case_upper(k), c, s, a))
    }
}

/// The pieces of `chars` between `+` signs.
fn split_plus(chars: &Vec<char>) -> (parts: Vec<Vec<char>>)
    ensures
        parts@.len() == split_on(chars@, '+').len(),
        forall|i: int| 0 <= i < parts@.len() ==> (#[trigger] parts@[i])@ == split_on(chars@, '+')[i],
{
    let mut parts: Vec<Vec<char>> = Vec::new();
    let mut current: Vec<char> = Vec::new();
    let mut i: usize = 0;
    while i < chars.len()
        invariant
            i <= chars@.len(),
            split_on(chars@.take(i as int), '+').len() == parts@.len() + 1,
            forall|j: int| 0 <= j < parts@.len() ==> (#[trigger] parts@[j])@ == split_on(chars@.take(i as int), '+')[j],
            current@ == split_on(chars@.take(i as int), '+').last(),
        decreases chars@.len() - i,
    {
        proof {
            assert(chars@.take(i + 1).drop_last() =~= chars@.take(i as int));
            lemma_split_nonempty(chars@.take(i as int), '+');
        }
        let c = chars[i];
        if c == '+' {
            let done = current;
            parts.push(done);
            current = Vec::new();
            assert(current@ =~= Seq::<char>::empty());
        } else {
            current.push(c);
        }
        i = i + 1;
    }
    assert(chars@.take(chars@.len() as int) =~= chars@);
    parts.push(current);
    parts
}

/// The characters of `chars` without leading or trailing whitespace, as text.
pub fn trimmed_text(chars: &Vec<char>) -> (s: String)
    ensures
        s@ == trim(chars@),
{
    let ghost v = chars@;
    let mut end: usize = chars.len();
    assert(v.take(end as int) =~= v);
    while end > 0 && is_whitespace(chars[end - 1])
        invariant
            end <= v.len(),
            v == chars@,
            trim_end(v.take(end as int)) == trim_end(v),
        decreases end,
    {
        assert(v.take(end as int).drop_last() =~= v.take(end - 1));
        end = end - 1;
    }
    assert(trim_end(v.take(end as int)) == v.take(end as int));
    let ghost kept = v.take(end as int);
    let mut start: usize = 0;
    assert(kept.subrange(0, kept.len() as int) =~= kept);
    while start < end && is_whitespace(chars[start])
        invariant
            start <= end <= v.len(),
            v == chars@,
            kept == v.take(end as int),
            trim_start(kept.subrange(start as int, end as int)) == trim_start(kept),
        decreases end - start,
    {
        assert(kept.subrange(start as int, end as int).drop_first() =~= kept.subrange(start + 1, end as int));
        start = start + 1;
    }
    assert(trim_start(kept.subrange(start as int, end as int)) == kept.subrange(start as int, end as int));
    let mut s = String::new();
    let mut k: usize = start;
    while k < end
        invariant
            start <= k <= end <= v.len(),
            v == chars@,
            s@ == v.subrange(start as int, k as int),
        decreases end - k,
    {
        push_char(&mut s, chars[k]);
        k = k + 1;
        assert(s@ =~= v.subrange(start as int, k as int));
    }
    assert(v.subrange(start as int, end as int) =~= kept.subrange(start as int, end as int));
    s
}

/// The shortcut a text such as `Ctrl+Shift+C` describes: `+`-separated pieces, each trimmed
/// and read without regard to case; `Ctrl`/`Control`, `Shift` and `Alt` set modifiers and any
/// other piece is the key, the last one winning. `None` when no piece gives a key.
pub fn parse_shortcut(s: &str) -> (r: Option<Shortcut>)
    ensures
        r is Some <==> shortcut_from_text(s@) is Some,
        r matches Some(sc) ==> key_of(sc) == shortcut_from_text(s@)->0,
{
    let chars = chars_of(s);
    let parts = split_plus(&chars);
    if parts.len() == 0 {
        proof { lemma_split_nonempty(s@, '+'); }
        return None;
    }
    let ghost all = split_on(s@, '+');
    let mut ctrl = false;
    let mut shift = false;
    let mut alt = false;
    let mut key = String::new();
    let mut i: usize = 0;
    assert(all.take(0) =~= Seq::<Seq<char>>::empty());
    while i < parts.len()
        invariant
            i <= parts@.len(),
            chars@ == s@,
            all == split_on(s@, '+'),
            parts@.len() == all.len(),
            forall|j: int| 0 <= j < parts@.len() ==> (#[trigger] parts@[j])@ == all[j],
            gather(all.take(i as int)) == (ctrl, shift, alt, key@),
        decreases parts@.len() - i,
    {
        proof {
            assert(all.take(i + 1).drop_last() =~= all.take(i as int));
            assert(all.take(i + 1).last() == all[i as int]);
        }
        let piece = trimmed_text(&parts[i]);
        let word = to_lowercase(piece.as_str());
        if text_is(&word, "ctrl") || text_is(&word, "control") {
            ctrl = true;
        } else if text_is(&word, "shift") {
            shift = true;
        } else if text_is(&word, "alt") {
            alt = true;
        } else {
            key = to_uppercase(word.as_str());
        }
        i = i + 1;
    }
    assert(all.take(parts@.len() as int) =~= all);
    if key.as_str().is_empty() {
        return None;
    }
    Some(Shortcut::new(key.as_str(), ctrl, shift, alt))
}

/// The bindings as a map from shortcut to action, later entries overriding earlier ones.
pub open spec fn entries_map(e: Seq<(Shortcut, ShortcutAction)>) -> Map<(Seq<char>, bool, bool, bool), ShortcutAction>
    decreases e.len(),
{
    if e.len() == 0 {
        Map::empty()
    } else {
        entries_map(e.drop_last()).insert(key_of(e.last().0), e.last().1)
    }
}

/// No shortcut is bound twice.
pub open spec fn unique_keys(e: Seq<(Shortcut, ShortcutAction)>) -> bool {
    forall|i: int, j: int| 0 <= i < j < e.len() ==> key_of(#[trigger] e[i].0) != key_of(#[trigger] e[j].0)
}

/// The entry at `i` gives the map's action for its shortcut when no later entry binds it.
proof fn lemma_last_binding(e: Seq<(Shortcut, ShortcutAction)>, i: int)
    requires
        0 <= i < e.len(),
        forall|j: int| i < j < e.len() ==> key_of(#[trigger] e[j].0) != key_of(e[i].0),
    ensures
        entries_map(e).contains_key(key_of(e[i].0)),
        entries_map(e)[key_of(e[i].0)] == e[i].1,
    decreases e.len(),
{
    if i < e.len() - 1 {
        assert(key_of(e[e.len() - 1].0) != key_of(e[i].0));
        lemma_last_binding(e.drop_last(), i);
    }
}

/// A shortcut no entry binds is not in the map.
proof fn lemma_unbound(e: Seq<(Shortcut, ShortcutAction)>, k: (Seq<char>, bool, bool, bool))
    requires
        forall|j: int| 0 <= j < e.len() ==> key_of(#[trigger] e[j].0) != k,
    ensures
        !entries_map(e).contains_key(k),
    decreases e.len(),
{
    if e.len() > 0 {
        assert(key_of(e[e.len() - 1].0) != k);
        lemma_unbound(e.drop_last(), k);
    }
}

/// Rebinding the entry at `i` to `a` changes the map only there.
proof fn lemma_rebind(e: Seq<(Shortcut, ShortcutAction)>, i: int, s: Shortcut, a: ShortcutAction)
    requires
        0 <= i < e.len(),
        unique_keys(e),
        key_of(s) == key_of(e[i].0),
    ensures
        entries_map(e.update(i, (s, a))) == entries_map(e).insert(key_of(s), a),
        unique_keys(e.update(i, (s, a))),
    decreases e.len(),
{
    let u = e.update(i, (s, a));
    if i == e.len() - 1 {
        assert(u.drop_last() =~= e.drop_last());
        assert(entries_map(u) =~= entries_map(e).insert(key_of(e[i].0), a));
    } else {
        assert(u.drop_last() =~= e.drop_last().update(i, (s, a)));
        lemma_rebind(e.drop_last(), i, s, a);
        assert(key_of(e[e.len() - 1].0) != key_of(e[i].0));
        assert(entries_map(u) =~= entries_map(e).insert(key_of(e[i].0), a));
    }
}

/// The key bindings.
#[derive(Debug, Clone)]
pub struct ShortcutManager {
    bindings: Vec<(Shortcut, ShortcutAction)>,
}

impl View for ShortcutManager {
    type V = Map<(Seq<char>, bool, bool, bool), ShortcutAction>;

    closed spec fn view(&self) -> Self::V {
        entries_map(self.bindings@)
    }
}

/// Whether two shortcuts are the same combination.
fn same_shortcut(a: &Shortcut, b: &Shortcut) -> (r: bool)
    ensures
        r == (key_of(*a) == key_of(*b)),
{
    a.key == b.key && a.ctrl == b.ctrl && a.shift == b.shift && a.alt == b.alt
}

/// The default bindings, in the order they are made.
pub open spec fn default_map() -> Map<(Seq<char>, bool, bool, bool), ShortcutAction> {
    Map::empty()
        .insert((case_upper("C"@), true, true, false), ShortcutAction::Copy)
        .insert((case_upper("V"@), true, true, false), ShortcutAction::Paste)
        .insert((case_upper("T"@), true, true, false), ShortcutAction::NewTab)
        .insert((case_upper("W"@), true, true, false), ShortcutAction::CloseTab)
        .insert((case_upper("TAB"@), true, false, false), ShortcutAction::NextTab)
        .insert((case_upper("TAB"@), true, true, false), ShortcutAction::PreviousTab)
        .insert((case_upper("EQUAL"@), true, false, false), ShortcutAction::IncreaseFontSize)
        .insert((case_upper("MINUS"@), true, false, false), ShortcutAction::DecreaseFontSize)
        .insert((case_upper("0"@), true, false, false), ShortcutAction::ResetFontSize)
        .insert((case_upper("COMMA"@), true, false, false), ShortcutAction::ToggleSettings)
        .insert((case_upper("P"@), true, true, false), ShortcutAction::SwitchTheme)
        .insert((case_upper("F"@), true, false, false), ShortcutAction::Search)
        .insert((case_upper("F3"@), false, false, false), ShortcutAction::SearchNext)
        .insert((case_upper("F3"@), false, true, false), ShortcutAction::SearchPrevious)
}

/// The bindings after applying configuration entries `(action, shortcut text)` in order; an
/// entry whose action or shortcut does not parse is skipped.
pub open spec fn configured_map(
    base: Map<(Seq<char>, bool, bool, bool), ShortcutAction>,
    entries: Seq<(Seq<char>, Seq<char>)>,
) -> Map<(Seq<char>, bool, bool, bool), ShortcutAction>
    decreases entries.len(),
{
    if entries.len() == 0 {
        base
    } else {
        let before = configured_map(base, entries.drop_last());
        let (a, s) = entries.last();
        match (action_named(case_lower(a)), shortcut_from_text(s)) {
            (Some(action), Some(k)) => before.insert(k, action),
            _ => before,
        }
    }
}

impl ShortcutManager {
    /// No shortcut is bound twice.
    pub closed spec fn wf(&self) -> bool {
        unique_keys(self.bindings@)
    }

    /// Binds `shortcut` to `action`, replacing any action it had.
    fn bind(&mut self, shortcut: Shortcut, action: ShortcutAction)
        requires
            old(self).wf(),
        ensures
            final(self).wf(),
            final(self)@ == old(self)@.insert(key_of(shortcut), action),
    {
        let ghost e = self.bindings@;
        let mut i: usize = 0;
        while i < self.bindings.len()
            invariant
                i <= e.len(),
                self.bindings@ == e,
                e == old(self).bindings@,
                unique_keys(e),
                forall|j: int| 0 <= j < i ==> key_of(#[trigger] e[j].0) != key_of(shortcut),
            decreases e.len() - i,
        {
            if same_shortcut(&self.bindings[i].0, &shortcut) {
                proof {
                    lemma_rebind(e, i as int, shortcut, action);
                }
                let ghost sc = shortcut;
                self.bindings.set(i, (shortcut, action));
                assert(self.bindings@ == e.update(i as int, (sc, action)));
                return;
            }
            i = i + 1;
        }
        self.bindings.push((shortcut, action));
        proof {
            assert(self.bindings@.drop_last() =~= e);
        }
    }

    /// The default bindings.
    pub fn default() -> (m: ShortcutManager)
        ensures
            m.wf(),
            m@ == default_map(),
    {
        let mut m = ShortcutManager { bindings: Vec::new() };
        assert(m@ =~= Map::empty());
        m.bind(Shortcut::new("C", true, true, false), ShortcutAction::Copy);
        m.bind(Shortcut::new("V", true, true, false), ShortcutAction::Paste);
        m.bind(Shortcut::new("T", true, true, false), ShortcutAction::NewTab);
        m.bind(Shortcut::new("W", true, true, false), ShortcutAction::CloseTab);
        m.bind(Shortcut::new("TAB", true, false, false), ShortcutAction::NextTab);
        m.bind(Shortcut::new("TAB", true, true, false), ShortcutAction::PreviousTab);
        m.bind(Shortcut::new("EQUAL", true, false, false), ShortcutAction::IncreaseFontSize);
        m.bind(Shortcut::new("MINUS", true, false, false), ShortcutAction::DecreaseFontSize);
        m.bind(Shortcut::new("0", true, false, false), ShortcutAction::ResetFontSize);
        m.bind(Shortcut::new("COMMA", true, false, false), ShortcutAction::ToggleSettings);
        m.bind(Shortcut::new("P", true, true, false), ShortcutAction::SwitchTheme);
        m.bind(Shortcut::new("F", true, false, false), ShortcutAction::Search);
        m.bind(Shortcut::new("F3", false, false, false), ShortcutAction::SearchNext);
        m.bind(Shortcut::new("F3", false, true, false), ShortcutAction::SearchPrevious);
        m
    }

    /// The default bindings with the configured ones applied in order: each entry pairs an
    /// action name with a shortcut text, and entries that do not parse are skipped.
    pub fn from_config(config_bindings: &[(String, String)]) -> (m: ShortcutManager)
        ensures
            m.wf(),
            m@ == configured_map(default_map(),
                config_bindings@.map_values(|e: (String, String)| (e.0@, e.1@))),
    {
        let ghost entries = config_bindings@.map_values(|e: (String, String)| (e.0@, e.1@));
        let mut manager = Self::default();
        let mut i: usize = 0;
        assert(entries.take(0) =~= Seq::<(Seq<char>, Seq<char>)>::empty());
        while i < config_bindings.len()
            invariant
                i <= config_bindings@.len(),
                entries == config_bindings@.map_values(|e: (String, String)| (e.0@, e.1@)),
                manager.wf(),
                manager@ == configured_map(default_map(), entries.take(i as int)),
            decreases config_bindings@.len() - i,
        {
            proof {
                assert(entries.take(i + 1).drop_last() =~= entries.take(i as int));
                assert(entries.take(i + 1).last() == entries[i as int]);
            }
            let (action_str, shortcut_str) = &config_bindings[i];
            let action = parse_action(action_str.as_str());
            let shortcut = parse_shortcut(shortcut_str.as_str());
            match (action, shortcut) {
                (Some(a), Some(sc)) => {
                    manager.bind(sc, a);
                },
                _ => {},
            }
            i = i + 1;
        }
        assert(entries.take(config_bindings@.len() as int) =~= entries);
        manager
    }

    /// The action bound to a press of `keycode` with `modifiers`, if any.
    pub fn find_action(&self, keycode: TermKey, modifiers: Modifiers) -> (r: Option<ShortcutAction>)
        ensures
            r == self@.get((key_name(keycode), modifiers.ctrl, modifiers.shift, modifiers.alt)),
    {
        let ghost e = self.bindings@;
        let ghost k = (key_name(keycode), modifiers.ctrl, modifiers.shift, modifiers.alt);
        let mut i: usize = self.bindings.len();
        while i > 0
            invariant
                i <= e.len(),
                self.bindings@ == e,
                k == (key_name(keycode), modifiers.ctrl, modifiers.shift, modifiers.alt),
                forall|j: int| i <= j < e.len() ==> key_of(#[trigger] e[j].0) != k,
            decreases i,
        {
            if self.bindings[i - 1].0.matches(keycode, modifiers) {
                proof {
                    lemma_last_binding(e, i - 1);
                }
                return Some(self.bindings[i - 1].1);
            }
            i = i - 1;
        }
        proof {
            lemma_unbound(e, k);
        }
        None
    }

    /// The bindings, each shortcut with its action.
    pub fn bindings(&self) -> (b: &[(Shortcut, ShortcutAction)])
        ensures
            entries_map(b@) == self@,
            self.wf() ==> unique_keys(b@),
    {
        self.bindings.as_slice()
    }
}

} // verus!
