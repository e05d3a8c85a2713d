//! A terminal that shows the events of the tokenizer on a screen of cells.

use vstd::prelude::*;

pub mod blink;
pub mod buffer;
pub mod cursor;
pub mod display;
pub mod pixels;

pub use blink::Blink;
pub use buffer::Buffer;
pub use cursor::Cursor;
pub use display::{Colour, TerminalDisplay};

use crate::ega::{colors_of, EgaPalette, Rgba, ANSI_ORDER};
use crate::font::Font;
use crate::parser::Sequence;
use crate::terminal::blink::BlinkView;
use crate::terminal::buffer::black_frame;
use crate::terminal::display::{
    lemma_without_cells, lemma_without_cells_last, lemma_without_rows, lemma_without_rows_last,
    DisplayView,
};
use crate::terminal::pixels::inverted_lines;

verus! {

/// How glyphs are drawn.
#[derive(Clone, Copy, Debug, PartialEq, Eq)]
pub struct Style {
    /// The colour of the glyph, 0 to 7.
    pub fg: usize,
    /// The colour of the background, 0 to 7.
    pub bg: usize,
    pub blink: bool,
    /// Bold glyphs take the bright half of the palette.
    pub bold: bool,
    /// A colour of the background that is not of the palette.
    pub true_colour_bg: Option<Rgba>,
    /// A colour of the glyph that is not of the palette.
    pub true_colour_fg: Option<Rgba>,
}

impl Style {
    /// Grey on black, neither bold nor blinking.
    pub open spec fn plain() -> Style {
        Style {
            fg: 7,
            bg: 0,
            blink: false,
            bold: false,
            true_colour_bg: None,
            true_colour_fg: None,
        }
    }

    /// Both colours are of the dark half of the palette.
    pub open spec fn wf(self) -> bool {
        self.fg < 8 && self.bg < 8
    }

    /// The style after one number of a rendition: 0 for the plain style, 1 for bold, 5 for
    /// blinking, 30 to 37 for the colour of the glyph, 40 to 47 for the colour of the
    /// background. Any other number changes nothing.
    pub open spec fn with(self, value: usize) -> Style {
        if value == 0 {
            Style::plain()
        } else if value == 1 {
            Style { bold: true, true_colour_fg: None, ..self }
        } else if value == 5 {
            Style { blink: true, ..self }
        } else if 30 <= value <= 37 {
            Style { fg: (value - 30) as usize, true_colour_fg: None, ..self }
        } else if 40 <= value <= 47 {
            Style { bg: (value - 40) as usize, true_colour_bg: None, ..self }
        } else {
            self
        }
    }

    /// The style after the numbers of a rendition, one after the other.
    pub open spec fn with_all(self, values: Seq<usize>) -> Style
        decreases values.len(),
    {
        if values.len() == 0 {
            self
        } else {
            self.with_all(values.drop_last()).with(values.last())
        }
    }

    /// The colour of a glyph.
    pub open spec fn foreground(self) -> Colour {
        match self.true_colour_fg {
            Some(rgba) => Colour::Rgba(rgba),
            None => if self.bold {
                Colour::Indexed((self.fg + 8) as usize)
            } else {
                Colour::Indexed(self.fg)
            },
        }
    }

    /// The colour behind a glyph.
    pub open spec fn background(self) -> Colour {
        match self.true_colour_bg {
            Some(rgba) => Colour::Rgba(rgba),
            None => Colour::Indexed(self.bg),
        }
    }

    /// The style after one number of a rendition.
    pub fn apply(&self, value: usize) -> (r: Style)
        ensures
            r == self.with(value),
            self.wf() ==> r.wf(),
    {
        if value == 0 {
            Style {
                fg: 7,
                bg: 0,
                blink: false,
                bold: false,
                true_colour_bg: None,
                true_colour_fg: None,
            }
        } else if value == 1 {
            Style {
                fg: self.fg,
                bg: self.bg,
                blink: self.blink,
                bold: true,
                true_colour_bg: self.true_colour_bg,
                true_colour_fg: None,
            }
        } else if value == 5 {
            Style {
                fg: self.fg,
                bg: self.bg,
                blink: true,
                bold: self.bold,
                true_colour_bg: self.true_colour_bg,
                true_colour_fg: self.true_colour_fg,
            }
        } else if 30 <= value && value <= 37 {
            Style {
                fg: value - 30,
                bg: self.bg,
                blink: self.blink,
                bold: self.bold,
                true_colour_bg: self.true_colour_bg,
                true_colour_fg: None,
            }
        } else if 40 <= value && value <= 47 {
            Style {
                fg: self.fg,
                bg: value - 40,
                blink: self.blink,
                bold: self.bold,
                true_colour_bg: None,
                true_colour_fg: self.true_colour_fg,
            }
        } else {
            *self
        }
    }
}

/// What the reader of events does after an event was shown.
#[derive(Clone, Copy, Debug, PartialEq, Eq)]
pub enum Reaction {
    /// Goes on with the next event.
    Continue,
    /// Shows a frame before it goes on.
    Frame,
    /// Plays the music of the event before it goes on.
    Play,
}

/// The smaller of two numbers.
pub open spec fn least(a: int, b: int) -> int {
    if a <= b {
        a
    } else {
        b
    }
}

/// The sum of two numbers, at most `usize::MAX`.
pub open spec fn capped_sum(a: usize, b: usize) -> usize {
    if a + b > usize::MAX {
        usize::MAX
    } else {
        (a + b) as usize
    }
}

/// The difference of two numbers, at least zero.
pub open spec fn floored_difference(a: usize, b: usize) -> usize {
    if b > a {
        0
    } else {
        (a - b) as usize
    }
}

/// The terminal as plain values.
pub struct TerminalView {
    pub display: DisplayView,
    pub column: usize,
    /// The row of the cursor. It is the number of rows while the cursor waits below the
    /// last row for the next glyph, which scrolls the screen.
    pub row: usize,
    pub cursor_height: usize,
    pub cursor_blink: BlinkView,
    /// The column and the row that were saved.
    pub stored: Option<(usize, usize)>,
    pub wrap: bool,
    pub style: Style,
    pub ice_colours: bool,
}

impl TerminalView {
    /// The number of columns.
    pub open spec fn columns(self) -> int {
        self.display.columns
    }

    /// The number of rows.
    pub open spec fn rows(self) -> int {
        self.display.rows
    }

    /// The screen is well-formed, the cursor lies on it or just below it, both colours of
    /// the style are of the dark half of a palette of at least sixteen colours, and the
    /// cursor is no higher than a glyph.
    pub open spec fn wf(self) -> bool {
        &&& self.display.wf()
        &&& self.column < self.columns()
        &&& self.row <= self.rows()
        &&& self.style.wf()
        &&& self.display.palette.len() >= 16
        &&& self.cursor_height <= self.display.lines
        &&& self.cursor_blink.wf()
    }

    /// The cursor in column `column`, or in the last column where there is no such column.
    pub open spec fn at_column(self, column: usize) -> TerminalView {
        TerminalView {
            column: least(column as int, self.columns() - 1) as usize,
            cursor_blink: self.cursor_blink.restarted(),
            ..self
        }
    }

    /// The cursor in row `row`, or in the last row where there is no such row.
    pub open spec fn at_row(self, row: usize) -> TerminalView {
        TerminalView {
            row: least(row as int, self.rows() - 1) as usize,
            cursor_blink: self.cursor_blink.restarted(),
            ..self
        }
    }

    /// The cursor in column `column` of row `row`, or as near to it as the screen reaches.
    pub open spec fn at(self, column: usize, row: usize) -> TerminalView {
        TerminalView {
            column: least(column as int, self.columns() - 1) as usize,
            row: least(row as int, self.rows() - 1) as usize,
            cursor_blink: self.cursor_blink.restarted(),
            ..self
        }
    }

    /// The terminal after a glyph was shown. A cursor that waits below the last row scrolls
    /// the screen first. The glyph goes to the cell of the cursor, and the cursor goes on by
    /// one cell, to the start of the next row behind the last column.
    pub open spec fn with_literal(self, byte: u8) -> TerminalView {
        let ready = if self.row == self.rows() {
            TerminalView { display: self.display.scrolled(), row: (self.row - 1) as usize, ..self }
        } else {
            self
        };
        let display = ready.display.with_glyph(
            byte,
            ready.column as int,
            ready.row as int,
            self.style.foreground(),
            self.style.background(),
            self.style.blink && !self.ice_colours,
        );
        if ready.column == self.columns() - 1 {
            TerminalView { display, column: 0, row: (ready.row + 1) as usize, ..ready }
        } else {
            TerminalView { display, column: (ready.column + 1) as usize, ..ready }
        }
    }

    /// The terminal after a line feed. A cursor that waits below the last row goes to the
    /// first row where lines wrap, and scrolls the screen where they do not.
    pub open spec fn with_line_feed(self) -> TerminalView {
        if self.row == self.rows() {
            if self.wrap {
                TerminalView { row: 0, ..self }
            } else {
                TerminalView { display: self.display.scrolled(), ..self }
            }
        } else {
            TerminalView { row: (self.row + 1) as usize, ..self }
        }
    }

    /// The terminal after the saved position was taken up again.
    pub open spec fn restored(self) -> TerminalView {
        match self.stored {
            Some((column, row)) => TerminalView { stored: None, ..self.at(column, row) },
            None => self,
        }
    }

    /// The screen with the row of the cursor made black from column `from` up to column
    /// `to`, unless the cursor waits below the last row.
    pub open spec fn line_erased(self, from: int, to: int) -> DisplayView {
        if self.row < self.rows() {
            self.display.without_cells(self.row as int, from, to)
        } else {
            self.display
        }
    }

    /// The terminal after a part of the row of the cursor was erased: from the cursor on for
    /// 0, up to the cursor for 1, the whole row for 2, nothing for any other number.
    pub open spec fn with_erase_in_line(self, value: usize) -> TerminalView {
        if value == 0 {
            TerminalView { display: self.line_erased(self.column as int, self.columns()), ..self }
        } else if value == 1 {
            TerminalView { display: self.line_erased(0, self.column + 1), ..self }
        } else if value == 2 {
            TerminalView { display: self.line_erased(0, self.columns()), ..self }
        } else {
            self
        }
    }

    /// The terminal after a part of the screen was erased: from the cursor on for 0, up to
    /// the cursor for 1, nothing for a number above 2. For 2 the whole screen is made black
    /// and the cursor goes to the first cell.
    pub open spec fn with_erase_display(self, value: usize) -> TerminalView {
        if value == 0 {
            TerminalView {
                display: (DisplayView {
                    ..self.line_erased(self.column as int, self.columns())
                }).without_rows(self.row + 1, self.rows()),
                ..self
            }
        } else if value == 1 {
            TerminalView {
                display: (DisplayView { ..self.line_erased(0, self.column + 1) }).without_rows(
                    0,
                    self.row as int,
                ),
                ..self
            }
        } else if value == 2 {
            (TerminalView { display: self.display.blank(), ..self }).at(0, 0)
        } else {
            self
        }
    }

    /// The frame that is shown after the next tic: the frame of the screen, with the cursor
    /// drawn into it where the cursor is switched on and lies on the screen.
    pub open spec fn frame(self) -> Seq<u8> {
        if self.cursor_blink.ticked().state && self.row < self.rows() {
            inverted_lines(
                self.display.shown(),
                self.display.cell(self.column as int, self.row as int) + (self.display.lines
                    - self.cursor_height) * self.display.width() * 4,
                8,
                self.display.width() * 4,
                self.cursor_height as nat,
            )
        } else {
            self.display.shown()
        }
    }

    /// The terminal after the tic of a frame.
    pub open spec fn ticked(self) -> TerminalView {
        TerminalView {
            display: DisplayView { blink: self.display.blink.ticked(), ..self.display },
            cursor_blink: self.cursor_blink.ticked(),
            ..self
        }
    }

    /// The terminal after an event was shown. Records, music, unknown sequences and the
    /// pacing marker change nothing.
    pub open spec fn after(self, event: crate::parser::SequenceView) -> TerminalView {
        match event {
            crate::parser::SequenceView::Literal(byte) => self.with_literal(byte),
            crate::parser::SequenceView::CarriageReturn => TerminalView { column: 0, ..self },
            crate::parser::SequenceView::LineFeed => self.with_line_feed(),
            crate::parser::SequenceView::Tab => self.at_column(capped_sum(self.column, 8)),
            crate::parser::SequenceView::CursorUp(amount) => self.at_row(
                floored_difference(self.row, amount),
            ),
            crate::parser::SequenceView::CursorDown(amount) => self.at_row(
                capped_sum(self.row, amount),
            ),
            crate::parser::SequenceView::CursorForward(amount) => self.at_column(
                capped_sum(self.column, amount),
            ),
            crate::parser::SequenceView::CursorBack(amount) => self.at_column(
                floored_difference(self.column, amount),
            ),
            crate::parser::SequenceView::CursorPosition { row, column } => self.at(column, row),
            crate::parser::SequenceView::SetScreenMode(value) => if value == 7 {
                TerminalView { wrap: true, ..self }
            } else {
                self
            },
            crate::parser::SequenceView::ResetScreenMode(value) => if value == 7 {
                TerminalView { wrap: false, ..self }
            } else {
                self
            },
            crate::parser::SequenceView::EraseDisplay(value) => self.with_erase_display(value),
            crate::parser::SequenceView::EraseInLine(value) => self.with_erase_in_line(value),
            crate::parser::SequenceView::SelectGraphicsRendition(values) => TerminalView {
                style: self.style.with_all(values),
                ..self
            },
            crate::parser::SequenceView::SavePosition => TerminalView {
                stored: Some((self.column, self.row)),
                ..self
            },
            crate::parser::SequenceView::RestorePosition => self.restored(),
            crate::parser::SequenceView::TrueColourBg { r, g, b } => TerminalView {
                style: Style { true_colour_bg: Some([r, g, b, 255u8]), ..self.style },
                ..self
            },
            crate::parser::SequenceView::TrueColourFg { r, g, b } => TerminalView {
                style: Style { true_colour_fg: Some([r, g, b, 255u8]), ..self.style },
                ..self
            },
            _ => self,
        }
    }
}

/// What the reader of events does after `event` was shown: it plays music, shows a frame
/// at the pacing marker, and goes on after every other event.
pub open spec fn reaction_to(event: crate::parser::SequenceView) -> Reaction {
    match event {
        crate::parser::SequenceView::Music(_) => Reaction::Play,
        crate::parser::SequenceView::Update => Reaction::Frame,
        _ => Reaction::Continue,
    }
}

/// A terminal of columns and rows of glyphs.
pub struct Terminal {
    display: TerminalDisplay,
    cursor: Cursor,
    stored_cursor: Option<Cursor>,
    columns: usize,
    rows: usize,
    wrap: bool,
    style: Style,
    ice_colours: bool,
}

impl View for Terminal {
    type V = TerminalView;

    closed spec fn view(&self) -> TerminalView {
        TerminalView {
            display: self.display@,
            column: self.cursor.column,
            row: self.cursor.row,
            cursor_height: self.cursor.height,
            cursor_blink: self.cursor.blink@,
            stored: match self.stored_cursor {
                Some(cursor) => Some((cursor.column, cursor.row)),
                None => None,
            },
            wrap: self.wrap,
            style: self.style,
            ice_colours: self.ice_colours,
        }
    }
}

impl Terminal {
    /// The terminal is well-formed, and so is what it is made of.
    pub closed spec fn wf(&self) -> bool {
        self@.wf() && self.display.wf() && self.columns == self@.columns() && self.rows
            == self@.rows()
    }

    /// A terminal of `columns` by `rows` cells with a black screen, the cursor in its first
    /// cell, the plain style and the colours of the ANSI escape codes. Glyphs are drawn with
    /// `font`. With `ice_colours` nothing blinks.
    pub fn new(columns: usize, rows: usize, ice_colours: bool, font: Font) -> (r: Terminal)
        requires
            columns >= 1,
            rows >= 1,
            (columns * 8) * (rows * font.lines()) * 4 <= usize::MAX,
        ensures
            r.wf(),
            r@.display.columns == columns,
            r@.display.rows == rows,
            r@.display.lines == font.lines(),
            r@.display.font == font.bytes(),
            colors_of(ANSI_ORDER@, r@.display.palette),
            r@.display.on == black_frame((columns * 8) * (rows * font.lines())),
            r@.display.off == black_frame((columns * 8) * (rows * font.lines())),
            r@.display.blink == (BlinkView { state: true, count: 12, delay: 12 }),
            r@.column == 0,
            r@.row == 0,
            r@.cursor_height == 2,
            r@.cursor_blink == (BlinkView { state: true, count: 7, delay: 7 }),
            r@.stored == None::<(usize, usize)>,
            !r@.wrap,
            r@.style == Style::plain(),
            r@.ice_colours == ice_colours,
    {
        proof {
            assert(ANSI_ORDER@.len() == 16);
        }
        Terminal {
            display: TerminalDisplay::new(columns, rows, EgaPalette::ansi(), font),
            cursor: Cursor::new(2),
            stored_cursor: None,
            columns,
            rows,
            wrap: false,
            style: Style {
                fg: 7,
                bg: 0,
                blink: false,
                bold: false,
                true_colour_bg: None,
                true_colour_fg: None,
            },
            ice_colours,
        }
    }

    /// The width and the height of the screen in pixels.
    pub fn get_dimensions(&self) -> (r: (usize, usize))
        requires
            self.wf(),
        ensures
            r.0 == self@.display.width(),
            r.1 == self@.display.height(),
    {
        (self.display.width(), self.display.height())
    }

    /// The column and the row of the cursor.
    pub fn cursor_position(&self) -> (r: (usize, usize))
        ensures
            r.0 == self@.column,
            r.1 == self@.row,
    {
        (self.cursor.column, self.cursor.row)
    }

    /// The style that glyphs are drawn in.
    pub fn style(&self) -> (r: Style)
        ensures
            r == self@.style,
    {
        self.style
    }

    /// Tells whether lines wrap.
    pub fn wraps(&self) -> (r: bool)
        ensures
            r == self@.wrap,
    {
        self.wrap
    }

    /// Changes the style by the numbers of a rendition, one after the other.
    pub fn select_graphics_rendition(&mut self, values: &[usize])
        requires
            old(self).wf(),
        ensures
            final(self).wf(),
            final(self)@ == (TerminalView {
                style: old(self)@.style.with_all(values@),
                ..old(self)@
            }),
    {
        let mut style = self.style;
        let mut i: usize = 0;
        while i < values.len()
            invariant
                i <= values@.len(),
                style == old(self)@.style.with_all(values@.take(i as int)),
                old(self)@.style.wf(),
                style.wf(),
            decreases values@.len() - i,
        {
            proof {
                assert(values@.take(i + 1).drop_last() =~= values@.take(i as int));
            }
            style = style.apply(values[i]);
            i += 1;
        }
        proof {
            assert(values@.take(i as int) =~= values@);
        }
        self.style = style;
    }

    /// Lets lines wrap for the number 7.
    pub fn set_screen_mode(&mut self, value: usize)
        requires
            old(self).wf(),
        ensures
            final(self).wf(),
            final(self)@ == old(self)@.after(crate::parser::SequenceView::SetScreenMode(value)),
    {
        if value == 7 {
            self.wrap = true;
        }
    }

    /// Stops lines from wrapping for the number 7.
    pub fn reset_screen_mode(&mut self, value: usize)
        requires
            old(self).wf(),
        ensures
            final(self).wf(),
            final(self)@ == old(self)@.after(crate::parser::SequenceView::ResetScreenMode(value)),
    {
        if value == 7 {
            self.wrap = false;
        }
    }

    /// The last column.
    fn last_column(&self) -> (r: usize)
        requires
            self.wf(),
        ensures
            r == self@.columns() - 1,
    {
        self.columns - 1
    }

    /// The number of rows.
    fn row_count(&self) -> (r: usize)
        requires
            self.wf(),
        ensures
            r == self@.rows(),
            r >= 1,
    {
        self.rows
    }

    /// Moves the cursor to a column, or to the last column where there is no such column.
    pub fn move_cursor_to_column(&mut self, column: usize)
        requires
            old(self).wf(),
        ensures
            final(self).wf(),
            final(self)@ == old(self)@.at_column(column),
    {
        let last = self.last_column();
        self.cursor.column = if column < last {
            column
        } else {
            last
        };
        self.cursor.reset_blink();
    }

    /// Moves the cursor to a row, or to the last row where there is no such row.
    pub fn move_cursor_to_row(&mut self, row: usize)
        requires
            old(self).wf(),
        ensures
            final(self).wf(),
            final(self)@ == old(self)@.at_row(row),
    {
        let last = self.row_count() - 1;
        self.cursor.row = if row < last {
            row
        } else {
            last
        };
        self.cursor.reset_blink();
    }

    /// Moves the cursor to a cell, or as near to it as the screen reaches.
    pub fn move_cursor_to(&mut self, column: usize, row: usize)
        requires
            old(self).wf(),
        ensures
            final(self).wf(),
            final(self)@ == old(self)@.at(column, row),
    {
        let last_column = self.last_column();
        let last_row = self.row_count() - 1;
        self.cursor.column = if column < last_column {
            column
        } else {
            last_column
        };
        self.cursor.row = if row < last_row {
            row
        } else {
            last_row
        };
        self.cursor.reset_blink();
    }

    /// Moves the cursor up by `amount` rows, at most to the first row.
    pub fn cursor_up(&mut self, amount: usize)
        requires
            old(self).wf(),
        ensures
            final(self).wf(),
            final(self)@ == old(self)@.after(crate::parser::SequenceView::CursorUp(amount)),
    {
        self.move_cursor_to_row(self.cursor.row.saturating_sub(amount));
    }

    /// Moves the cursor down by `amount` rows, at most to the last row.
    pub fn cursor_down(&mut self, amount: usize)
        requires
            old(self).wf(),
        ensures
            final(self).wf(),
            final(self)@ == old(self)@.after(crate::parser::SequenceView::CursorDown(amount)),
    {
        self.move_cursor_to_row(self.cursor.row.saturating_add(amount));
    }

    /// Moves the cursor forward by `amount` columns, at most to the last column.
    pub fn cursor_forward(&mut self, amount: usize)
        requires
            old(self).wf(),
        ensures
            final(self).wf(),
            final(self)@ == old(self)@.after(crate::parser::SequenceView::CursorForward(amount)),
    {
        self.move_cursor_to_column(self.cursor.column.saturating_add(amount));
    }

    /// Moves the cursor back by `amount` columns, at most to the first column.
    pub fn cursor_back(&mut self, amount: usize)
        requires
            old(self).wf(),
        ensures
            final(self).wf(),
            final(self)@ == old(self)@.after(crate::parser::SequenceView::CursorBack(amount)),
    {
        self.move_cursor_to_column(self.cursor.column.saturating_sub(amount));
    }

    /// Moves the cursor forward by eight columns.
    pub fn tab(&mut self)
        requires
            old(self).wf(),
        ensures
            final(self).wf(),
            final(self)@ == old(self)@.after(crate::parser::SequenceView::Tab),
    {
        self.cursor_forward(8);
    }

    /// Counts the tic of a frame and puts the frame to show into `frame`.
    pub fn next_frame(&mut self, frame: &mut Vec<u8>)
        requires
            old(self).wf(),
        ensures
            final(self).wf(),
            final(self)@ == old(self)@.ticked(),
            final(frame)@ == old(self)@.frame(),
    {
        let rows = self.row_count();
        self.display.next_frame(frame);
        let on = self.cursor.blink.tic();
        if on && self.cursor.row < rows {
            self.display.draw_cursor(frame, &self.cursor);
        }
    }

    /// The colour of a glyph in the style at hand.
    fn foreground(&self) -> (r: Colour)
        requires
            self.wf(),
        ensures
            r == self@.style.foreground(),
    {
        match self.style.true_colour_fg {
            Some(rgba) => Colour::Rgba(rgba),
            None => if self.style.bold {
                Colour::Indexed(self.style.fg.saturating_add(8))
            } else {
                Colour::Indexed(self.style.fg)
            },
        }
    }

    /// The colour behind a glyph in the style at hand.
    fn background(&self) -> (r: Colour)
        ensures
            r == self@.style.background(),
    {
        match self.style.true_colour_bg {
            Some(rgba) => Colour::Rgba(rgba),
            None => Colour::Indexed(self.style.bg),
        }
    }

    /// Shows a glyph at the cursor and moves the cursor on.
    pub fn literal(&mut self, byte: u8)
        requires
            old(self).wf(),
        ensures
            final(self).wf(),
            final(self)@ == old(self)@.with_literal(byte),
    {
        let rows = self.row_count();
        let last = self.last_column();
        if self.cursor.row == rows {
            self.display.scroll_up();
            self.cursor.row -= 1;
        }
        let fg = self.foreground();
        let bg = self.background();
        self.display.draw_glyph(
            byte,
            self.cursor.column,
            self.cursor.row,
            fg,
            bg,
            self.style.blink && !self.ice_colours,
        );
        if self.cursor.column == last {
            self.cursor.column = 0;
            self.cursor.row += 1;
        } else {
            self.cursor.column += 1;
        }
    }

    /// Moves the cursor down by one row.
    pub fn line_feed(&mut self)
        requires
            old(self).wf(),
        ensures
            final(self).wf(),
            final(self)@ == old(self)@.with_line_feed(),
    {
        let rows = self.row_count();
        if self.cursor.row == rows {
            if self.wrap {
                self.cursor.row = 0;
            } else {
                self.display.scroll_up();
            }
        } else {
            self.cursor.row += 1;
        }
    }

    /// Moves the cursor to the first column.
    pub fn carriage_return(&mut self)
        requires
            old(self).wf(),
        ensures
            final(self).wf(),
            final(self)@ == (TerminalView { column: 0, ..old(self)@ }),
    {
        self.cursor.column = 0;
    }

    /// Saves the position of the cursor.
    pub fn save_cursor_position(&mut self)
        requires
            old(self).wf(),
        ensures
            final(self).wf(),
            final(self)@ == (TerminalView {
                stored: Some((old(self)@.column, old(self)@.row)),
                ..old(self)@
            }),
    {
        self.stored_cursor = Some(self.cursor.stored());
    }

    /// Moves the cursor to the position that was saved, if one was, and forgets it.
    pub fn restore_cursor_position(&mut self)
        requires
            old(self).wf(),
        ensures
            final(self).wf(),
            final(self)@ == old(self)@.restored(),
    {
        let stored = self.stored_cursor.take();
        if let Some(cursor) = stored {
            self.move_cursor_to(cursor.column, cursor.row);
        }
    }

    /// Makes the cells of the row of the cursor black, from column `from` up to column `to`.
    fn clear_columns(&mut self, from: usize, to: usize)
        requires
            old(self).wf(),
            to <= old(self)@.columns(),
        ensures
            final(self).wf(),
            final(self)@ == (TerminalView {
                display: old(self)@.line_erased(from as int, to as int),
                ..old(self)@
            }),
    {
        let rows = self.row_count();
        if self.cursor.row < rows {
            let row = self.cursor.row;
            let mut column = from;
            proof {
                lemma_without_cells(self@.display, row as int, from as int, from as int);
            }
            while column < to
                invariant
                    from <= column || column == from,
                    to <= old(self)@.columns(),
                    row < old(self)@.rows(),
                    row == old(self)@.row,
                    self.wf(),
                    column >= to ==> self@.display == old(self)@.display.without_cells(
                        row as int,
                        from as int,
                        to as int,
                    ),
                    column < to ==> self@.display == old(self)@.display.without_cells(
                        row as int,
                        from as int,
                        column as int,
                    ),
                    self@ == (TerminalView { display: self@.display, ..old(self)@ }),
                    old(self)@.display.wf(),
                decreases to - column,
            {
                proof {
                    lemma_without_cells_last(
                        old(self)@.display,
                        row as int,
                        from as int,
                        column as int,
                    );
                    lemma_without_cells(old(self)@.display, row as int, from as int, column + 1);
                }
                self.display.clear_at(column, row);
                column += 1;
            }
        }
    }

    /// Makes all cells of the rows from `from` up to `to` black.
    fn clear_rows(&mut self, from: usize, to: usize)
        requires
            old(self).wf(),
            to <= old(self)@.rows(),
        ensures
            final(self).wf(),
            final(self)@ == (TerminalView {
                display: old(self)@.display.without_rows(from as int, to as int),
                ..old(self)@
            }),
    {
        let columns = self.last_column() + 1;
        let mut row = from;
        proof {
            lemma_without_rows(self@.display, from as int, from as int);
        }
        while row < to
            invariant
                to <= old(self)@.rows(),
                columns == old(self)@.columns(),
                self.wf(),
                row >= to ==> self@.display == old(self)@.display.without_rows(
                    from as int,
                    to as int,
                ),
                row < to ==> from <= row && self@.display == old(self)@.display.without_rows(
                    from as int,
                    row as int,
                ),
                self@ == (TerminalView { display: self@.display, ..old(self)@ }),
                old(self)@.display.wf(),
            decreases to - row,
        {
            let ghost before = self@.display;
            proof {
                lemma_without_rows_last(old(self)@.display, from as int, row as int);
                lemma_without_rows(old(self)@.display, from as int, row as int);
                lemma_without_rows(old(self)@.display, from as int, row + 1);
                lemma_without_cells(before, row as int, 0, 0);
            }
            let mut column: usize = 0;
            while column < columns
                invariant
                    column <= columns,
                    row < to <= old(self)@.rows(),
                    columns == old(self)@.columns(),
                    columns == before.columns,
                    before.rows == old(self)@.rows(),
                    self.wf(),
                    before.wf(),
                    self@.display.rows == before.rows,
                    self@.display.columns == before.columns,
                    self@.display == before.without_cells(row as int, 0, column as int),
                    self@ == (TerminalView { display: self@.display, ..old(self)@ }),
                decreases columns - column,
            {
                proof {
                    lemma_without_cells_last(before, row as int, 0, column as int);
                    lemma_without_cells(before, row as int, 0, column + 1);
                }
                self.display.clear_at(column, row);
                column += 1;
            }
            row += 1;
        }
    }

    /// Erases a part of the row of the cursor: from the cursor on for 0, up to the cursor
    /// for 1, the whole row for 2.
    pub fn erase_in_line(&mut self, value: usize)
        requires
            old(self).wf(),
        ensures
            final(self).wf(),
            final(self)@ == old(self)@.with_erase_in_line(value),
    {
        let columns = self.last_column() + 1;
        if value == 0 {
            self.clear_columns(self.cursor.column, columns);
        } else if value == 1 {
            self.clear_columns(0, self.cursor.column + 1);
        } else if value == 2 {
            self.clear_columns(0, columns);
        }
    }

    /// Erases a part of the screen: from the cursor on for 0, up to the cursor for 1, all of
    /// it for 2, which also moves the cursor to the first cell.
    pub fn erase_display(&mut self, value: usize)
        requires
            old(self).wf(),
        ensures
            final(self).wf(),
            final(self)@ == old(self)@.with_erase_display(value),
    {
        let columns = self.last_column() + 1;
        let rows = self.row_count();
        if value == 0 {
            self.clear_columns(self.cursor.column, columns);
            proof {
                lemma_without_cells(
                    old(self)@.display,
                    old(self)@.row as int,
                    old(self)@.column as int,
                    columns as int,
                );
            }
            if self.cursor.row < rows {
                self.clear_rows(self.cursor.row + 1, rows);
            } else {
                proof {
                    assert(self@.display.without_rows(self@.row + 1, rows as int)
                        == self@.display);
                }
            }
        } else if value == 1 {
            self.clear_columns(0, self.cursor.column + 1);
            proof {
                lemma_without_cells(
                    old(self)@.display,
                    old(self)@.row as int,
                    0,
                    old(self)@.column + 1,
                );
            }
            self.clear_rows(0, self.cursor.row);
        } else if value == 2 {
            self.display.clear();
            self.move_cursor_to(0, 0);
        }
    }

    /// Sets a colour of the background that is not of the palette.
    pub fn true_colour_bg(&mut self, red: u8, green: u8, blue: u8)
        requires
            old(self).wf(),
        ensures
            final(self).wf(),
            final(self)@ == old(self)@.after(
                crate::parser::SequenceView::TrueColourBg { r: red, g: green, b: blue },
            ),
    {
        self.style.true_colour_bg = Some([red, green, blue, 255]);
    }

    /// Sets a colour of the glyphs that is not of the palette.
    pub fn true_colour_fg(&mut self, red: u8, green: u8, blue: u8)
        requires
            old(self).wf(),
        ensures
            final(self).wf(),
            final(self)@ == old(self)@.after(
                crate::parser::SequenceView::TrueColourFg { r: red, g: green, b: blue },
            ),
    {
        self.style.true_colour_fg = Some([red, green, blue, 255]);
    }

    /// Shows an event, and tells what the reader of events does next.
    pub fn apply(&mut self, event: &Sequence) -> (r: Reaction)
        requires
            old(self).wf(),
        ensures
            final(self).wf(),
            final(self)@ == old(self)@.after(event@),
            r == reaction_to(event@),
    {
        match event {
            Sequence::Literal(byte) => {
                self.literal(*byte);
                Reaction::Continue
            },
            Sequence::CarriageReturn => {
                self.carriage_return();
                Reaction::Continue
            },
            Sequence::LineFeed => {
                self.line_feed();
                Reaction::Continue
            },
            Sequence::Tab => {
                self.tab();
                Reaction::Continue
            },
            Sequence::CursorUp(amount) => {
                self.cursor_up(*amount);
                Reaction::Continue
            },
            Sequence::CursorDown(amount) => {
                self.cursor_down(*amount);
                Reaction::Continue
            },
            Sequence::CursorForward(amount) => {
                self.cursor_forward(*amount);
                Reaction::Continue
            },
            Sequence::CursorBack(amount) => {
                self.cursor_back(*amount);
                Reaction::Continue
            },
            Sequence::CursorPosition { row, column } => {
                self.move_cursor_to(*column, *row);
                Reaction::Continue
            },
            Sequence::SetScreenMode(value) => {
                self.set_screen_mode(*value);
                Reaction::Continue
            },
            Sequence::ResetScreenMode(value) => {
                self.reset_screen_mode(*value);
                Reaction::Continue
            },
            Sequence::EraseDisplay(value) => {
                self.erase_display(*value);
                Reaction::Continue
            },
            Sequence::EraseInLine(value) => {
                self.erase_in_line(*value);
                Reaction::Continue
            },
            Sequence::SelectGraphicsRendition(values) => {
                self.select_graphics_rendition(values.as_slice());
                Reaction::Continue
            },
            Sequence::SavePosition => {
                self.save_cursor_position();
                Reaction::Continue
            },
            Sequence::RestorePosition => {
                self.restore_cursor_position();
                Reaction::Continue
            },
            Sequence::TrueColourBg { r, g, b } => {
                self.true_colour_bg(*r, *g, *b);
                Reaction::Continue
            },
            Sequence::TrueColourFg { r, g, b } => {
                self.true_colour_fg(*r, *g, *b);
                Reaction::Continue
            },
            Sequence::Music(_) => Reaction::Play,
            Sequence::Update => Reaction::Frame,
            Sequence::SauceRecord(_) => Reaction::Continue,
            Sequence::Unknown { .. } => Reaction::Continue,
        }
    }
}

} // verus!
