use vstd::prelude::*;
use vstd::std_specs::ops::{BitAndSpecImpl, BitOrSpecImpl, NotSpecImpl};

verus! {

/// Bit set of rendering attributes carried by a cell.
#[derive(Debug, Clone, Copy, PartialEq, Eq, Structural)]
pub struct CellFlags(pub u16);

impl CellFlags {
    pub fn empty() -> (f: CellFlags)
        ensures
            f.0 == 0,
    {
        CellFlags(0)
    }

    pub fn bold() -> (f: CellFlags)
        ensures
            f.0 == 1,
    {
        CellFlags(1)
    }

    pub fn italic() -> (f: CellFlags)
        ensures
            f.0 == 2,
    {
        CellFlags(2)
    }

    pub fn underline() -> (f: CellFlags)
        ensures
            f.0 == 4,
    {
        CellFlags(4)
    }

    pub fn blink() -> (f: CellFlags)
        ensures
            f.0 == 8,
    {
        CellFlags(8)
    }

    pub fn reverse() -> (f: CellFlags)
        ensures
            f.0 == 16,
    {
        CellFlags(16)
    }

    pub fn wide() -> (f: CellFlags)
        ensures
            f.0 == 32,
    {
        CellFlags(32)
    }

    pub fn wide_char_spacer() -> (f: CellFlags)
        ensures
            f.0 == 64,
    {
        CellFlags(64)
    }

    pub fn dim() -> (f: CellFlags)
        ensures
            f.0 == 128,
    {
        CellFlags(128)
    }

    pub fn strikethrough() -> (f: CellFlags)
        ensures
            f.0 == 256,
    {
        CellFlags(256)
    }

    pub fn double_underline() -> (f: CellFlags)
        ensures
            f.0 == 512,
    {
        CellFlags(512)
    }

    pub fn hidden() -> (f: CellFlags)
        ensures
            f.0 == 1024,
    {
        CellFlags(1024)
    }


    /// The raw bit pattern.
    pub fn bits(&self) -> (b: u16)
        ensures
            b == self.0,
    {
        self.0
    }

    /// Builds a flag set from a raw bit pattern.
    pub fn from_bits(bits: u16) -> (f: CellFlags)
        ensures
            f.0 == bits,
    {
        CellFlags(bits)
    }

    /// Whether every bit of `other` is set in `self`.
    pub open spec fn has(self, other: CellFlags) -> bool {
        self.0 & other.0 == other.0
    }

    /// Whether `self` and `other` share at least one set bit.
    pub fn intersects(&self, other: CellFlags) -> (b: bool)
        ensures
            b == (self.0 & other.0 != 0),
    {
        self.0 & other.0 != 0
    }
}

impl CellFlags {
    /// `self` with every bit of `other` cleared.
    pub fn without(&self, other: CellFlags) -> (f: CellFlags)
        ensures
            f.0 == self.0 & !other.0,
    {
        CellFlags(self.0 & !other.0)
    }
}

impl core::ops::BitOr for CellFlags {
    type Output = CellFlags;

    fn bitor(self, rhs: CellFlags) -> (r: CellFlags) {
        CellFlags(self.0 | rhs.0)
    }
}

impl BitOrSpecImpl for CellFlags {
    open spec fn obeys_bitor_spec() -> bool {
        true
    }

    open spec fn bitor_req(self, rhs: CellFlags) -> bool {
        true
    }

    open spec fn bitor_spec(self, rhs: CellFlags) -> CellFlags {
        CellFlags(self.0 | rhs.0)
    }
}

impl core::ops::BitAnd for CellFlags {
    type Output = CellFlags;

    fn bitand(self, rhs: CellFlags) -> (r: CellFlags) {
        CellFlags(self.0 & rhs.0)
    }
}

impl BitAndSpecImpl for CellFlags {
    open spec fn obeys_bitand_spec() -> bool {
        true
    }

    open spec fn bitand_req(self, rhs: CellFlags) -> bool {
        true
    }

    open spec fn bitand_spec(self, rhs: CellFlags) -> CellFlags {
        CellFlags(self.0 & rhs.0)
    }
}

impl core::ops::Not for CellFlags {
    type Output = CellFlags;

    fn not(self) -> (r: CellFlags) {
        CellFlags(!self.0)
    }
}

impl NotSpecImpl for CellFlags {
    open spec fn obeys_not_spec() -> bool {
        true
    }

    open spec fn not_req(self) -> bool {
        true
    }

    open spec fn not_spec(self) -> CellFlags {
        CellFlags(!self.0)
    }
}

impl core::ops::BitOrAssign for CellFlags {
    fn bitor_assign(&mut self, rhs: CellFlags)
        ensures
            final(self).0 == old(self).0 | rhs.0,
    {
        self.0 = self.0 | rhs.0;
    }
}

} // verus!

verus! {

/// An RGB colour.
#[derive(Debug, Clone, Copy, PartialEq, Eq, Structural)]
pub struct Color {
    pub r: u8,
    pub g: u8,
    pub b: u8,
}

impl Color {
    pub fn new(r: u8, g: u8, b: u8) -> (c: Color)
        ensures
            c.r == r,
            c.g == g,
            c.b == b,
    {
        Color { r, g, b }
    }

    /// The colour whose channels are the three low bytes of `0xRRGGBB`.
    pub open spec fn spec_from_u32(v: u32) -> Color {
        Color { r: ((v / 0x10000) % 0x100) as u8, g: ((v / 0x100) % 0x100) as u8, b: (v % 0x100) as u8 }
    }

    /// Splits a `0xRRGGBB` value into its three channels; bits above 24 are ignored.
    pub fn from_u32(v: u32) -> (c: Color)
        ensures
            c.r == (v / 0x10000) % 0x100,
            c.g == (v / 0x100) % 0x100,
            c.b == v % 0x100,
            c == Color::spec_from_u32(v),
    {
        let r = ((v >> 16) & 0xFF) as u8;
        let g = ((v >> 8) & 0xFF) as u8;
        let b = (v & 0xFF) as u8;
        assert(((v >> 16) & 0xFF) as u8 == (v / 0x10000) % 0x100) by (bit_vector);
        assert(((v >> 8) & 0xFF) as u8 == (v / 0x100) % 0x100) by (bit_vector);
        assert((v & 0xFF) as u8 == v % 0x100) by (bit_vector);
        Color { r, g, b }
    }

    /// The terminal's default foreground colour.
    pub open spec fn spec_default_fg() -> Color {
        Color { r: 0xD4, g: 0xD4, b: 0xD4 }
    }

    /// The terminal's default background colour.
    pub open spec fn spec_default_bg() -> Color {
        Color { r: 0x1E, g: 0x1E, b: 0x1E }
    }

    /// The terminal's default foreground colour.
    pub fn default_fg() -> (c: Color)
        ensures
            c == Color::spec_default_fg(),
    {
        Color { r: 0xD4, g: 0xD4, b: 0xD4 }
    }

    /// The terminal's default background colour.
    pub fn default_bg() -> (c: Color)
        ensures
            c == Color::spec_default_bg(),
    {
        Color { r: 0x1E, g: 0x1E, b: 0x1E }
    }
}

/// One character cell of the terminal grid.
#[derive(Debug, Clone, Copy, PartialEq, Eq, Structural)]
pub struct Cell {
    /// The character; spacer cells hold `'\0'` or a blank.
    pub character: char,
    pub foreground: Color,
    pub background: Color,
    pub flags: CellFlags,
}

impl Cell {
    /// The blank cell drawn with the given colours.
    pub open spec fn spec_blank(foreground: Color, background: Color) -> Cell {
        Cell { character: ' ', foreground, background, flags: CellFlags(0) }
    }

    /// A cell with the given character and colours and no attributes.
    pub fn with_colors(character: char, foreground: Color, background: Color) -> (c: Cell)
        ensures
            c == (Cell { character, foreground, background, flags: CellFlags(0) }),
    {
        Cell { character, foreground, background, flags: CellFlags(0) }
    }

    /// A cell with the given character in the default colours.
    pub fn new(character: char) -> (c: Cell)
        ensures
            c == (Cell {
                character,
                foreground: Color::spec_default_fg(),
                background: Color::spec_default_bg(),
                flags: CellFlags(0),
            }),
    {
        Self::with_colors(character, Color::default_fg(), Color::default_bg())
    }

    /// A blank cell in the default colours.
    pub fn blank() -> (c: Cell)
        ensures
            c == Cell::spec_blank(Color::spec_default_fg(), Color::spec_default_bg()),
    {
        Self::new(' ')
    }

    /// A blank cell in the given colours.
    pub fn blank_with_colors(foreground: Color, background: Color) -> (c: Cell)
        ensures
            c == Cell::spec_blank(foreground, background),
    {
        Self::with_colors(' ', foreground, background)
    }

    /// Resets the cell to a blank in the default colours.
    pub fn reset(&mut self)
        ensures
            *final(self) == Cell::spec_blank(Color::spec_default_fg(), Color::spec_default_bg()),
    {
        self.reset_with_colors(Color::default_fg(), Color::default_bg());
    }

    /// Resets the cell to a blank in the given colours.
    pub fn reset_with_colors(&mut self, foreground: Color, background: Color)
        ensures
            *final(self) == Cell::spec_blank(foreground, background),
    {
        self.character = ' ';
        self.foreground = foreground;
        self.background = background;
        self.flags = CellFlags(0);
    }

    pub open spec fn spec_is_wide(&self) -> bool {
        self.flags.0 & 32 != 0
    }

    pub open spec fn spec_is_wide_spacer(&self) -> bool {
        self.flags.0 & 64 != 0
    }

    /// Whether the cell holds the first half of a double-width character.
    #[verifier::when_used_as_spec(spec_is_wide)]
    pub fn is_wide(&self) -> (b: bool)
        ensures
            b == self.spec_is_wide(),
    {
        (self.flags & CellFlags::wide()) != CellFlags::empty()
    }

    /// Whether the cell is the placeholder right of a double-width character.
    #[verifier::when_used_as_spec(spec_is_wide_spacer)]
    pub fn is_wide_spacer(&self) -> (b: bool)
        ensures
            b == self.spec_is_wide_spacer(),
    {
        (self.flags & CellFlags::wide_char_spacer()) != CellFlags::empty()
    }
}

impl Default for Cell {
    fn default() -> (c: Cell)
        ensures
            c == Cell::spec_blank(Color::spec_default_fg(), Color::spec_default_bg()),
    {
        Self::blank()
    }
}

/// Number of terminal columns a character occupies: 0 for control characters and
/// zero-width marks, 2 for East Asian wide and fullwidth characters, 1 otherwise.
pub open spec fn spec_char_width(c: char) -> nat {
    let v = c as u32;
    if v < 0x20 || (0x7F <= v && v < 0xA0) || (0x300 <= v && v < 0x370)
        || (0x200B <= v && v < 0x2010) || v == 0xFEFF {
        0
    } else if (0x1100 <= v && v < 0x1160) || (0x2E80 <= v && v < 0x303F)
        || (0x3040 <= v && v < 0xA4D0) || (0xAC00 <= v && v < 0xD7A4)
        || (0xF900 <= v && v < 0xFB00) || (0xFE30 <= v && v < 0xFE50)
        || (0xFF00 <= v && v < 0xFF61) || (0xFFE0 <= v && v < 0xFFE7)
        || (0x1F300 <= v && v < 0x1F650) || (0x1F900 <= v && v < 0x1FA00)
        || (0x20000 <= v && v < 0x3FFFE) {
        2
    } else {
        1
    }
}

/// Number of terminal columns a character occupies.
pub fn char_width(c: char) -> (w: usize)
    ensures
        w == spec_char_width(c),
{
    let v = c as u32;
    if v < 0x20 || (0x7F <= v && v < 0xA0) || (0x300 <= v && v < 0x370)
        || (0x200B <= v && v < 0x2010) || v == 0xFEFF {
        0
    } else if (0x1100 <= v && v < 0x1160) || (0x2E80 <= v && v < 0x303F)
        || (0x3040 <= v && v < 0xA4D0) || (0xAC00 <= v && v < 0xD7A4)
        || (0xF900 <= v && v < 0xFB00) || (0xFE30 <= v && v < 0xFE50)
        || (0xFF00 <= v && v < 0xFF61) || (0xFFE0 <= v && v < 0xFFE7)
        || (0x1F300 <= v && v < 0x1F650) || (0x1F900 <= v && v < 0x1FA00)
        || (0x20000 <= v && v < 0x3FFFE) {
        2
    } else {
        1
    }
}

} // verus!
