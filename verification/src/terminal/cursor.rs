//! The cursor of the terminal.

use vstd::prelude::*;
use crate::terminal::blink::{Blink, BlinkView};

verus! {

/// Where the next glyph goes, and how the cursor is drawn.
pub struct Cursor {
    pub column: usize,
    pub row: usize,
    /// The number of pixel lines of a cell that the cursor covers.
    pub height: usize,
    pub blink: Blink,
}

impl Default for Cursor {
    fn default() -> (r: Self)
        ensures
            r.column == 0,
            r.row == 0,
            r.height == 2,
            r.blink@ == (BlinkView { state: true, count: 7, delay: 7 }),
    {
        Cursor::new(2)
    }
}

impl Cursor {
    /// A cursor of the given height at the first cell, that blinks every seven tics.
    pub fn new(height: usize) -> (r: Cursor)
        ensures
            r.column == 0,
            r.row == 0,
            r.height == height,
            r.blink@ == (BlinkView { state: true, count: 7, delay: 7 }),
    {
        Cursor { column: 0, row: 0, height, blink: Blink::new(7) }
    }

    /// Switches the cursor on and starts its blinking anew.
    pub fn reset_blink(&mut self)
        ensures
            final(self).column == old(self).column,
            final(self).row == old(self).row,
            final(self).height == old(self).height,
            final(self).blink@ == old(self).blink@.restarted(),
    {
        self.blink.reset();
    }

    /// A cursor at the same cell, with the usual height and its blinking begun anew.
    pub fn stored(&self) -> (r: Cursor)
        ensures
            r.column == self.column,
            r.row == self.row,
            r.height == 2,
            r.blink@ == (BlinkView { state: true, count: 7, delay: 7 }),
    {
        Cursor { column: self.column, row: self.row, height: 2, blink: Blink::new(7) }
    }
}

} // verus!
