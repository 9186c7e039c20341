use vstd::prelude::*;

verus! {

/// How the cursor is drawn.
#[derive(Debug, Clone, Copy, PartialEq, Eq, Structural)]
pub enum CursorShape {
    Block,
    Underline,
    Beam,
}

impl Default for CursorShape {
    fn default() -> (s: CursorShape)
        ensures
            s == CursorShape::Block,
    {
        CursorShape::Block
    }
}

/// Cursor position and presentation state.
#[derive(Debug, Clone, Copy, PartialEq, Eq, Structural)]
pub struct Cursor {
    /// Column, 0-based.
    pub col: usize,
    /// Row, 0-based.
    pub row: usize,
    pub shape: CursorShape,
    pub visible: bool,
    /// Keypad application mode.
    pub app_mode: bool,
}

impl Cursor {
    /// The cursor a fresh screen starts with.
    pub open spec fn spec_new() -> Cursor {
        Cursor { col: 0, row: 0, shape: CursorShape::Block, visible: true, app_mode: false }
    }

    /// A visible block cursor at the origin.
    pub fn new() -> (c: Cursor)
        ensures
            c == Cursor::spec_new(),
    {
        Cursor { col: 0, row: 0, shape: CursorShape::Block, visible: true, app_mode: false }
    }

    /// Moves the cursor inside a `rows` x `cols` area; a zero extent leaves that coordinate alone.
    pub fn clamp(&mut self, rows: usize, cols: usize)
        ensures
            final(self).row == (if rows > 0 && old(self).row > rows - 1 { (rows - 1) as usize } else { old(self).row }),
            final(self).col == (if cols > 0 && old(self).col > cols - 1 { (cols - 1) as usize } else { old(self).col }),
            final(self).shape == old(self).shape,
            final(self).visible == old(self).visible,
            final(self).app_mode == old(self).app_mode,
    {
        if rows > 0 {
            if self.row > rows - 1 {
                self.row = rows - 1;
            }
        }
        if cols > 0 {
            if self.col > cols - 1 {
                self.col = cols - 1;
            }
        }
    }
}

impl Default for Cursor {
    fn default() -> (c: Cursor)
        ensures
            c == Cursor::spec_new(),
    {
        Self::new()
    }
}

} // verus!
