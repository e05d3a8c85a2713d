//! A frame of pixels with its size.

use vstd::prelude::*;
use crate::ega::{Rgba, BLACK_RGBA};
use crate::terminal::pixels::{
    copied, copy_line, draw_font, drawn, fill_with_rgba, filled, filled_lines,
    lemma_drawn_len, lemma_filled_lines_len, put_rgba,
};

verus! {

/// A frame of `width` by `height` pixels.
pub struct Buffer {
    pub frame: Vec<u8>,
    pub width: usize,
    pub height: usize,
}

/// A frame of `pixels` black pixels.
pub open spec fn black_frame(pixels: int) -> Seq<u8> {
    Seq::new((pixels * 4) as nat, |i: int| BLACK_RGBA@[i % 4])
}

/// The frame moved up by `start` bytes: what stood from byte `start` on stands at the
/// front, and the last `start` bytes stay as they were.
pub open spec fn moved_up(frame: Seq<u8>, start: int) -> Seq<u8> {
    frame.skip(start) + frame.skip(frame.len() - start)
}

/// The frame of a buffer of `width` by `height` pixels after it was scrolled up by `lines`
/// lines: the lines moved up, and black lines at the bottom.
pub open spec fn scrolled_up(frame: Seq<u8>, width: int, height: int, lines: int) -> Seq<u8> {
    filled_lines(
        moved_up(frame, lines * width * 4),
        ((height - lines) * width + 0) * 4,
        width,
        width * 4,
        lines as nat,
        BLACK_RGBA@,
    )
}

impl Buffer {
    /// The frame has four bytes for each pixel of the buffer.
    pub open spec fn wf(&self) -> bool {
        self.frame@.len() == self.width * self.height * 4
    }

    /// A black buffer of `width` by `height` pixels.
    pub fn new(width: usize, height: usize) -> (r: Buffer)
        requires
            width * height * 4 <= usize::MAX,
        ensures
            r.wf(),
            r.width == width,
            r.height == height,
            r.frame@ == black_frame(width * height),
    {
        assert(width * height <= width * height * 4) by (nonlinear_arith);
        let size = width * height * 4;
        let mut frame: Vec<u8> = vec![0;size];
        fill_with_rgba(&mut frame, &BLACK_RGBA);
        proof {
            assert(frame@ =~= black_frame(width * height));
        }
        Buffer { frame, width, height }
    }

    /// Makes every pixel black.
    pub fn clear(&mut self)
        ensures
            final(self).width == old(self).width,
            final(self).height == old(self).height,
            final(self).frame@ == filled(
                old(self).frame@,
                0,
                old(self).frame@.len() as int / 4,
                BLACK_RGBA@,
            ),
            old(self).wf() ==> final(self).wf() && final(self).frame@ == black_frame(
                old(self).width * old(self).height,
            ),
    {
        fill_with_rgba(&mut self.frame, &BLACK_RGBA);
        proof {
            if old(self).wf() {
                assert(self.frame@ =~= black_frame(old(self).width * old(self).height));
            }
        }
    }

    /// Sets a rectangle of `width` by `height` pixels, with its upper left corner in column
    /// `x` of line `y`, to the colour `rgba`.
    pub fn fill_rect(&mut self, x: usize, y: usize, width: usize, height: usize, rgba: &Rgba)
        ensures
            final(self).width == old(self).width,
            final(self).height == old(self).height,
            final(self).frame@ == filled_lines(
                old(self).frame@,
                (y * old(self).width + x) * 4,
                width as int,
                old(self).width * 4,
                height as nat,
                rgba@,
            ),
            final(self).frame@.len() == old(self).frame@.len(),
    {
        proof {
            lemma_filled_lines_len(
                self.frame@,
                (y * self.width + x) * 4,
                width as int,
                self.width * 4,
                height as nat,
                rgba@,
            );
        }
        put_rgba(&mut self.frame, x, y, width, height, self.width, rgba);
    }

    /// Makes a rectangle of `width` by `height` pixels black.
    pub fn clear_rect(&mut self, x: usize, y: usize, width: usize, height: usize)
        ensures
            final(self).width == old(self).width,
            final(self).height == old(self).height,
            final(self).frame@ == filled_lines(
                old(self).frame@,
                (y * old(self).width + x) * 4,
                width as int,
                old(self).width * 4,
                height as nat,
                BLACK_RGBA@,
            ),
            final(self).frame@.len() == old(self).frame@.len(),
    {
        self.fill_rect(x, y, width, height, &BLACK_RGBA);
    }

    /// Draws the pixels `font_bytes` of a glyph, `font_width` pixels to the line, with its
    /// upper left corner in column `x` of line `y`.
    pub fn draw_font(&mut self, x: usize, y: usize, font_width: usize, font_bytes: &[u8])
        ensures
            final(self).width == old(self).width,
            final(self).height == old(self).height,
            final(self).frame@ == drawn(
                old(self).frame@,
                (y * old(self).width + x) * 4,
                old(self).width * 4,
                font_bytes@,
                font_width * 4,
            ),
            final(self).frame@.len() == old(self).frame@.len(),
    {
        proof {
            lemma_drawn_len(
                self.frame@,
                (y * self.width + x) * 4,
                self.width * 4,
                font_bytes@,
                font_width * 4,
            );
        }
        draw_font(&mut self.frame, x, y, font_width, self.width, font_bytes);
    }

    /// Moves the lines of the buffer up by `y` lines and makes the `y` lines at the bottom
    /// black.
    pub fn scroll_up(&mut self, y: usize)
        requires
            old(self).wf(),
            y <= old(self).height,
        ensures
            final(self).wf(),
            final(self).width == old(self).width,
            final(self).height == old(self).height,
            final(self).frame@ == scrolled_up(
                old(self).frame@,
                old(self).width as int,
                old(self).height as int,
                y as int,
            ),
    {
        let length = self.frame.len();
        assert(y * self.width * 4 <= self.width * self.height * 4 && y * self.width <= y
            * self.width * 4) by (nonlinear_arith)
            requires
                y <= self.height,
        ;
        let start = y * self.width * 4;
        let rest = vstd::slice::slice_to_vec(
            vstd::slice::slice_subrange(self.frame.as_slice(), start, length),
        );
        copy_line(&mut self.frame, 0, rest.as_slice());
        proof {
            assert(self.frame@ =~= moved_up(old(self).frame@, start as int));
        }
        self.clear_rect(0, self.height - y, self.width, y);
    }
}

} // verus!
