//! The two frames of the screen: one for when what blinks is shown, one for when it is not.

use vstd::prelude::*;
use crate::ega::{EgaColor, EgaPalette, Rgba, BLACK_RGBA};
use crate::font::{glyph_pixels, Font};
use crate::terminal::blink::{Blink, BlinkView};
use crate::terminal::buffer::{black_frame, scrolled_up, Buffer};
use crate::terminal::cursor::Cursor;
use crate::terminal::pixels::{
    drawn, filled_lines, inverted_lines, lemma_drawn_len, lemma_filled_lines_len, put_inverse,
};

verus! {

/// A colour of a glyph: one of the palette, or one given by its parts.
#[derive(Clone, Copy, Debug, PartialEq, Eq)]
pub enum Colour {
    Indexed(usize),
    Rgba(Rgba),
}

/// The screen as plain values.
pub struct DisplayView {
    pub columns: int,
    pub rows: int,
    /// The number of lines of a glyph.
    pub lines: int,
    pub font: Seq<u8>,
    pub palette: Seq<EgaColor>,
    /// The frame for when what blinks is shown.
    pub on: Seq<u8>,
    /// The frame for when what blinks is not shown.
    pub off: Seq<u8>,
    pub blink: BlinkView,
}

impl DisplayView {
    /// The width of the screen in pixels.
    pub open spec fn width(self) -> int {
        self.columns * 8
    }

    /// The height of the screen in pixels.
    pub open spec fn height(self) -> int {
        self.rows * self.lines
    }

    /// The first byte of the cell in column `column` of row `row`.
    pub open spec fn cell(self, column: int, row: int) -> int {
        ((row * self.lines) * self.width() + column * 8) * 4
    }

    /// The parts of a colour.
    pub open spec fn parts(self, colour: Colour) -> Seq<u8> {
        match colour {
            Colour::Indexed(index) => self.palette[index as int].rgba@,
            Colour::Rgba(rgba) => rgba@,
        }
    }

    /// The colour can be looked up.
    pub open spec fn knows(self, colour: Colour) -> bool {
        match colour {
            Colour::Indexed(index) => index < self.palette.len(),
            Colour::Rgba(_) => true,
        }
    }

    /// The frames have the size of the screen, which a `usize` holds; a glyph has 8 to 32
    /// lines.
    pub open spec fn wf(self) -> bool {
        &&& 1 <= self.columns
        &&& 1 <= self.rows
        &&& 8 <= self.lines <= 32
        &&& self.font.len() == 256 * self.lines
        &&& self.width() * self.height() * 4 <= usize::MAX
        &&& self.on.len() == self.width() * self.height() * 4
        &&& self.off.len() == self.width() * self.height() * 4
        &&& self.blink.wf()
    }

    /// The screen with glyph `byte` drawn into a cell. Where `blink` is set, the frame for
    /// when what blinks is not shown gets the cell in the colour of the background.
    pub open spec fn with_glyph(
        self,
        byte: u8,
        column: int,
        row: int,
        fg: Colour,
        bg: Colour,
        blink: bool,
    ) -> DisplayView {
        let pixels = glyph_pixels(self.font, self.lines, byte, self.parts(fg), self.parts(bg));
        let at = self.cell(column, row);
        DisplayView {
            on: drawn(self.on, at, self.width() * 4, pixels, 32),
            off: if blink {
                filled_lines(self.off, at, 8, self.width() * 4, self.lines as nat, self.parts(bg))
            } else {
                drawn(self.off, at, self.width() * 4, pixels, 32)
            },
            ..self
        }
    }

    /// The screen with a cell made black.
    pub open spec fn without_cell(self, column: int, row: int) -> DisplayView {
        let at = self.cell(column, row);
        DisplayView {
            on: filled_lines(self.on, at, 8, self.width() * 4, self.lines as nat, BLACK_RGBA@),
            off: filled_lines(self.off, at, 8, self.width() * 4, self.lines as nat, BLACK_RGBA@),
            ..self
        }
    }

    /// The screen with the cells of row `row` from column `from` up to column `to` made
    /// black.
    pub open spec fn without_cells(self, row: int, from: int, to: int) -> DisplayView
        decreases to - from,
    {
        if from >= to {
            self
        } else {
            self.without_cell(from, row).without_cells(row, from + 1, to)
        }
    }

    /// The screen with all cells of the rows from `from` up to `to` made black.
    pub open spec fn without_rows(self, from: int, to: int) -> DisplayView
        decreases to - from,
    {
        if from >= to {
            self
        } else {
            self.without_cells(from, 0, self.columns).without_rows(from + 1, to)
        }
    }

    /// The black screen.
    pub open spec fn blank(self) -> DisplayView {
        DisplayView {
            on: black_frame(self.width() * self.height()),
            off: black_frame(self.width() * self.height()),
            ..self
        }
    }

    /// The screen moved up by one row.
    pub open spec fn scrolled(self) -> DisplayView {
        DisplayView {
            on: scrolled_up(self.on, self.width(), self.height(), self.lines),
            off: scrolled_up(self.off, self.width(), self.height(), self.lines),
            ..self
        }
    }

    /// The frame to show after the next tic.
    pub open spec fn shown(self) -> Seq<u8> {
        if self.blink.ticked().state {
            self.on
        } else {
            self.off
        }
    }
}

/// Making a cell black keeps the screen well-formed and touches nothing but the frames.
pub proof fn lemma_without_cell(display: DisplayView, column: int, row: int)
    requires
        display.wf(),
    ensures
        display.without_cell(column, row).wf(),
{
    let at = display.cell(column, row);
    lemma_filled_lines_len(
        display.on,
        at,
        8,
        display.width() * 4,
        display.lines as nat,
        BLACK_RGBA@,
    );
    lemma_filled_lines_len(
        display.off,
        at,
        8,
        display.width() * 4,
        display.lines as nat,
        BLACK_RGBA@,
    );
}

/// Making cells black keeps the screen well-formed and touches nothing but the frames.
pub proof fn lemma_without_cells(display: DisplayView, row: int, from: int, to: int)
    requires
        display.wf(),
    ensures
        display.without_cells(row, from, to).wf(),
        display.without_cells(row, from, to) == (DisplayView {
            on: display.without_cells(row, from, to).on,
            off: display.without_cells(row, from, to).off,
            ..display
        }),
    decreases to - from,
{
    if from < to {
        lemma_without_cell(display, from, row);
        lemma_without_cells(display.without_cell(from, row), row, from + 1, to);
    }
}

/// Making rows black keeps the screen well-formed and touches nothing but the frames.
pub proof fn lemma_without_rows(display: DisplayView, from: int, to: int)
    requires
        display.wf(),
    ensures
        display.without_rows(from, to).wf(),
        display.without_rows(from, to) == (DisplayView {
            on: display.without_rows(from, to).on,
            off: display.without_rows(from, to).off,
            ..display
        }),
    decreases to - from,
{
    if from < to {
        lemma_without_cells(display, from, 0, display.columns);
        lemma_without_rows(display.without_cells(from, 0, display.columns), from + 1, to);
    }
}

/// Clearing one more cell at the end is clearing the cells up to it and then that cell.
pub proof fn lemma_without_cells_last(display: DisplayView, row: int, from: int, to: int)
    requires
        from <= to,
    ensures
        display.without_cells(row, from, to + 1) == display.without_cells(
            row,
            from,
            to,
        ).without_cell(to, row),
    decreases to - from,
{
    if from < to {
        lemma_without_cells_last(display.without_cell(from, row), row, from + 1, to);
    } else {
        assert(display.without_cell(from, row).without_cells(row, from + 1, from + 1)
            == display.without_cell(from, row));
    }
}

/// Clearing one more row at the end is clearing the rows up to it and then that row.
pub proof fn lemma_without_rows_last(display: DisplayView, from: int, to: int)
    requires
        from <= to,
        display.wf(),
    ensures
        display.without_rows(from, to + 1) == display.without_rows(from, to).without_cells(
            to,
            0,
            display.columns,
        ),
    decreases to - from,
{
    if from < to {
        lemma_without_cells(display, from, 0, display.columns);
        lemma_without_rows_last(display.without_cells(from, 0, display.columns), from + 1, to);
    } else {
        let one = display.without_cells(from, 0, display.columns);
        assert(one.without_rows(from + 1, from + 1) == one);
    }
}

/// The two frames of the screen, with the font and the palette that glyphs are drawn with.
pub struct TerminalDisplay {
    font: Font,
    width: usize,
    height: usize,
    columns: usize,
    rows: usize,
    blink_on: Buffer,
    blink_off: Buffer,
    blink: Blink,
    palette: EgaPalette,
}

impl View for TerminalDisplay {
    type V = DisplayView;

    closed spec fn view(&self) -> DisplayView {
        DisplayView {
            columns: self.columns as int,
            rows: self.rows as int,
            lines: self.font.lines(),
            font: self.font.bytes(),
            palette: self.palette@,
            on: self.blink_on.frame@,
            off: self.blink_off.frame@,
            blink: self.blink@,
        }
    }
}

impl TerminalDisplay {
    /// The sizes that the fields hold are those of the view.
    pub closed spec fn wf(&self) -> bool {
        &&& self@.wf()
        &&& self.width == self@.width()
        &&& self.height == self@.height()
        &&& self.blink_on.width == self.width
        &&& self.blink_on.height == self.height
        &&& self.blink_off.width == self.width
        &&& self.blink_off.height == self.height
    }

    /// A black screen of `columns` by `rows` cells.
    pub fn new(columns: usize, rows: usize, palette: EgaPalette, font: Font) -> (r: TerminalDisplay)
        requires
            columns >= 1,
            rows >= 1,
            (columns * 8) * (rows * font.lines()) * 4 <= usize::MAX,
        ensures
            r.wf(),
            r@.wf(),
            r@ == (DisplayView {
                columns: columns as int,
                rows: rows as int,
                lines: font.lines(),
                font: font.bytes(),
                palette: palette@,
                on: black_frame((columns * 8) * (rows * font.lines())),
                off: black_frame((columns * 8) * (rows * font.lines())),
                blink: BlinkView { state: true, count: 12, delay: 12 },
            }),
    {
        let lines = font.height();
        assert(columns * 8 <= (columns * 8) * (rows * lines) * 4 && rows * lines <= (columns * 8)
            * (rows * lines) * 4) by (nonlinear_arith)
            requires
                columns >= 1,
                rows >= 1,
                lines >= 8,
        ;
        let width = columns * 8;
        let height = rows * lines;
        TerminalDisplay {
            font,
            width,
            height,
            columns,
            rows,
            blink_on: Buffer::new(width, height),
            blink_off: Buffer::new(width, height),
            blink: Blink::new(12),
            palette,
        }
    }


    /// The width of the screen in pixels.
    pub fn width(&self) -> (r: usize)
        requires
            self.wf(),
        ensures
            r == self@.width(),
    {
        self.width
    }

    /// The height of the screen in pixels.
    pub fn height(&self) -> (r: usize)
        requires
            self.wf(),
        ensures
            r == self@.height(),
    {
        self.height
    }

    /// The number of lines of a glyph.
    pub fn lines(&self) -> (r: usize)
        ensures
            r == self@.lines,
            8 <= r <= 32,
    {
        self.font.height()
    }

    /// The parts of a colour.
    pub fn parts(&self, colour: &Colour) -> (r: Rgba)
        requires
            self@.knows(*colour),
        ensures
            r@ == self@.parts(*colour),
    {
        match colour {
            Colour::Indexed(index) => match self.palette.get(*index) {
                Some(color) => color.rgba,
                None => BLACK_RGBA,
            },
            Colour::Rgba(rgba) => *rgba,
        }
    }

    /// The first pixel of the cell in column `column` of row `row`, as column and line.
    fn corner(&self, column: usize, row: usize) -> (r: (usize, usize))
        requires
            self.wf(),
            column < self@.columns,
            row < self@.rows,
        ensures
            r.0 == column * 8,
            r.1 == row * self@.lines,
            (r.1 * self@.width() + r.0) * 4 == self@.cell(column as int, row as int),
            r.0 + 8 <= self@.width(),
            r.1 + self@.lines <= self@.height(),
    {
        let lines = self.font.height();
        assert(column * 8 + 8 <= self.columns * 8 && row * lines + lines <= self.rows * lines)
            by (nonlinear_arith)
            requires
                column < self.columns,
                row < self.rows,
                lines >= 0,
        ;
        (column * 8, row * lines)
    }

    /// Draws the cursor into `frame`, which has the size of the screen: the lowest lines of
    /// its cell are turned into their opposite colours.
    pub fn draw_cursor(&self, frame: &mut Vec<u8>, cursor: &Cursor)
        requires
            self.wf(),
            cursor.column < self@.columns,
            cursor.row < self@.rows,
            cursor.height <= self@.lines,
        ensures
            final(frame)@ == inverted_lines(
                old(frame)@,
                self@.cell(cursor.column as int, cursor.row as int) + (self@.lines
                    - cursor.height) * self@.width() * 4,
                8,
                self@.width() * 4,
                cursor.height as nat,
            ),
    {
        let lines = self.font.height();
        let (x, top) = self.corner(cursor.column, cursor.row);
        let y = top + (lines - cursor.height);
        proof {
            assert((y * self.width + x) * 4 == (top * self.width + x) * 4 + (lines - cursor.height)
                * self.width * 4) by (nonlinear_arith)
                requires
                    y == top + (lines - cursor.height),
            ;
            assert((lines - cursor.height) * self.width * 4 == (self@.lines - cursor.height)
                * self@.width() * 4) by (nonlinear_arith)
                requires
                    lines == self@.lines,
                    self.width == self@.width(),
            ;
        }
        put_inverse(frame, x, y, 8, cursor.height, self.width);
    }

    /// Counts one tic of the blinking and puts the frame to show into `frame`.
    pub fn next_frame(&mut self, frame: &mut Vec<u8>)
        requires
            old(self).wf(),
        ensures
            final(self).wf(),
            final(self)@.wf(),
            final(self)@ == (DisplayView { blink: old(self)@.blink.ticked(), ..old(self)@ }),
            final(frame)@ == old(self)@.shown(),
    {
        let source = if self.blink.tic() {
            self.blink_on.frame.as_slice()
        } else {
            self.blink_off.frame.as_slice()
        };
        frame.clear();
        frame.extend_from_slice(source);
    }

    /// Moves the screen up by one row of cells.
    pub fn scroll_up(&mut self)
        requires
            old(self).wf(),
            old(self)@.rows >= 1,
        ensures
            final(self).wf(),
            final(self)@.wf(),
            final(self)@ == old(self)@.scrolled(),
    {
        let lines = self.font.height();
        assert(lines <= self.rows * lines) by (nonlinear_arith)
            requires
                self.rows >= 1,
                lines >= 0,
        ;
        self.blink_on.scroll_up(lines);
        self.blink_off.scroll_up(lines);
    }

    /// Makes the whole screen black.
    pub fn clear(&mut self)
        requires
            old(self).wf(),
        ensures
            final(self).wf(),
            final(self)@.wf(),
            final(self)@ == old(self)@.blank(),
    {
        self.blink_on.clear();
        self.blink_off.clear();
    }

    /// Makes a cell black.
    pub fn clear_at(&mut self, column: usize, row: usize)
        requires
            old(self).wf(),
            column < old(self)@.columns,
            row < old(self)@.rows,
        ensures
            final(self).wf(),
            final(self)@.wf(),
            final(self)@ == old(self)@.without_cell(column as int, row as int),
    {
        let lines = self.font.height();
        let (x, y) = self.corner(column, row);
        self.blink_on.clear_rect(x, y, 8, lines);
        self.blink_off.clear_rect(x, y, 8, lines);
    }

    /// Draws glyph `byte` into a cell. Where `blink` is set, the glyph is left out of the
    /// frame for when what blinks is not shown.
    pub fn draw_glyph(
        &mut self,
        byte: u8,
        column: usize,
        row: usize,
        fg: Colour,
        bg: Colour,
        blink: bool,
    )
        requires
            old(self).wf(),
            column < old(self)@.columns,
            row < old(self)@.rows,
            old(self)@.knows(fg),
            old(self)@.knows(bg),
        ensures
            final(self).wf(),
            final(self)@.wf(),
            final(self)@ == old(self)@.with_glyph(byte, column as int, row as int, fg, bg, blink),
    {
        let lines = self.font.height();
        let (x, y) = self.corner(column, row);
        let fg = self.parts(&fg);
        let bg = self.parts(&bg);
        let pixels = self.font.to_bytes(byte, &fg, &bg);
        self.blink_on.draw_font(x, y, 8, pixels.as_slice());
        if blink {
            self.blink_off.fill_rect(x, y, 8, lines, &bg);
        } else {
            self.blink_off.draw_font(x, y, 8, pixels.as_slice());
        }
    }
}

} // verus!
