//! Drawing into a frame of pixels.
//!
//! A frame is a sequence of bytes, four for each pixel: red, green, blue and alpha. The
//! pixels of a line stand one behind the other, and so do the lines. A drawing is made line
//! by line; a line that does not lie within the frame is left out.

use vstd::prelude::*;
use crate::ega::Rgba;

verus! {

/// The frame with `count` pixels from byte `start` on set to the colour `rgba`. A line that
/// does not lie within the frame leaves the frame as it is.
pub open spec fn filled(frame: Seq<u8>, start: int, count: int, rgba: Seq<u8>) -> Seq<u8> {
    if 0 <= start && 0 <= count && start + 4 * count <= frame.len() {
        Seq::new(
            frame.len(),
            |i: int|
                if start <= i < start + 4 * count {
                    rgba[(i - start) % 4]
                } else {
                    frame[i]
                },
        )
    } else {
        frame
    }
}

/// The frame with `lines` lines of `count` pixels set to the colour `rgba`: the first from
/// byte `start` on, each further one `stride` bytes behind the one before.
pub open spec fn filled_lines(
    frame: Seq<u8>,
    start: int,
    count: int,
    stride: int,
    lines: nat,
    rgba: Seq<u8>,
) -> Seq<u8>
    decreases lines,
{
    if lines == 0 {
        frame
    } else {
        filled_lines(
            filled(frame, start, count, rgba),
            start + stride,
            count,
            stride,
            (lines - 1) as nat,
            rgba,
        )
    }
}

/// The frame with `count` pixels from byte `start` on turned into their opposite colour,
/// fully opaque.
pub open spec fn inverted(frame: Seq<u8>, start: int, count: int) -> Seq<u8> {
    if 0 <= start && 0 <= count && start + 4 * count <= frame.len() {
        Seq::new(
            frame.len(),
            |i: int|
                if start <= i < start + 4 * count {
                    if (i - start) % 4 == 3 {
                        255u8
                    } else {
                        (255 - frame[i]) as u8
                    }
                } else {
                    frame[i]
                },
        )
    } else {
        frame
    }
}

/// The frame with `lines` lines of `count` pixels turned into their opposite colour.
pub open spec fn inverted_lines(frame: Seq<u8>, start: int, count: int, stride: int, lines: nat) -> Seq<
    u8,
>
    decreases lines,
{
    if lines == 0 {
        frame
    } else {
        inverted_lines(
            inverted(frame, start, count),
            start + stride,
            count,
            stride,
            (lines - 1) as nat,
        )
    }
}

/// The frame with the bytes `data` from byte `start` on.
pub open spec fn copied(frame: Seq<u8>, start: int, data: Seq<u8>) -> Seq<u8> {
    if 0 <= start && start + data.len() <= frame.len() {
        Seq::new(
            frame.len(),
            |i: int|
                if start <= i < start + data.len() {
                    data[i - start]
                } else {
                    frame[i]
                },
        )
    } else {
        frame
    }
}

/// The frame with the lines of `data`, of `chunk` bytes each, drawn one below the other:
/// the first from byte `start` on, each further one `stride` bytes behind the one before.
/// The drawing ends with the first line that does not lie within the frame; what is left of
/// `data` behind its last whole line is not drawn.
pub open spec fn drawn(frame: Seq<u8>, start: int, stride: int, data: Seq<u8>, chunk: int) -> Seq<
    u8,
>
    decreases data.len(),
{
    if chunk <= 0 || data.len() < chunk || start < 0 || start + chunk > frame.len() {
        frame
    } else {
        drawn(
            copied(frame, start, data.take(chunk)),
            start + stride,
            stride,
            data.skip(chunk),
            chunk,
        )
    }
}

/// Lines that begin too far behind for one of them to lie within the frame change nothing.
pub proof fn lemma_filled_lines_beyond(
    frame: Seq<u8>,
    start: int,
    count: int,
    stride: int,
    lines: nat,
    rgba: Seq<u8>,
)
    requires
        stride >= 0,
        start < 0 || count < 0 || start + 4 * count > frame.len(),
        start >= 0,
    ensures
        filled_lines(frame, start, count, stride, lines, rgba) == frame,
    decreases lines,
{
    if lines > 0 {
        lemma_filled_lines_beyond(frame, start + stride, count, stride, (lines - 1) as nat, rgba);
    }
}

/// Lines that begin too far behind for one of them to lie within the frame change nothing.
pub proof fn lemma_inverted_lines_beyond(
    frame: Seq<u8>,
    start: int,
    count: int,
    stride: int,
    lines: nat,
)
    requires
        stride >= 0,
        start >= 0,
        count < 0 || start + 4 * count > frame.len(),
    ensures
        inverted_lines(frame, start, count, stride, lines) == frame,
    decreases lines,
{
    if lines > 0 {
        lemma_inverted_lines_beyond(frame, start + stride, count, stride, (lines - 1) as nat);
    }
}

/// Filling keeps the length of the frame.
pub proof fn lemma_filled_lines_len(
    frame: Seq<u8>,
    start: int,
    count: int,
    stride: int,
    lines: nat,
    rgba: Seq<u8>,
)
    ensures
        filled_lines(frame, start, count, stride, lines, rgba).len() == frame.len(),
    decreases lines,
{
    if lines > 0 {
        lemma_filled_lines_len(
            filled(frame, start, count, rgba),
            start + stride,
            count,
            stride,
            (lines - 1) as nat,
            rgba,
        );
    }
}


/// Drawing keeps the length of the frame.
pub proof fn lemma_drawn_len(frame: Seq<u8>, start: int, stride: int, data: Seq<u8>, chunk: int)
    ensures
        drawn(frame, start, stride, data, chunk).len() == frame.len(),
    decreases data.len(),
{
    if !(chunk <= 0 || data.len() < chunk || start < 0 || start + chunk > frame.len()) {
        lemma_drawn_len(
            copied(frame, start, data.take(chunk)),
            start + stride,
            stride,
            data.skip(chunk),
            chunk,
        );
    }
}


/// The first byte of the pixel in column `x` of line `y`, in a frame whose lines hold
/// `total_width` pixels; `None` where a `usize` cannot hold it.
pub fn pixel_offset(x: usize, y: usize, total_width: usize) -> (r: Option<usize>)
    ensures
        match r {
            Some(offset) => offset == (y * total_width + x) * 4,
            None => (y * total_width + x) * 4 > usize::MAX,
        },
{
    let rows = match y.checked_mul(total_width) {
        Some(rows) => rows,
        None => {
            return None;
        },
    };
    let pixels = match rows.checked_add(x) {
        Some(pixels) => pixels,
        None => {
            return None;
        },
    };
    pixels.checked_mul(4)
}

/// Sets `count` pixels from byte `start` on to the colour `rgba`, if the line lies within
/// the frame, and tells whether it does.
pub fn fill_line(frame: &mut Vec<u8>, start: usize, count: usize, rgba: &Rgba) -> (r: bool)
    ensures
        final(frame)@ == filled(old(frame)@, start as int, count as int, rgba@),
        r == (start + 4 * count <= old(frame)@.len()),
{
    let length = frame.len();
    let bytes = match count.checked_mul(4) {
        Some(bytes) => bytes,
        None => {
            return false;
        },
    };
    let end = match start.checked_add(bytes) {
        Some(end) => end,
        None => {
            return false;
        },
    };
    if end > length {
        return false;
    }
    let mut i = start;
    let mut part: usize = 0;
    while i < end
        invariant
            start <= i <= end <= length,
            end == start + 4 * count,
            part == (i - start) % 4,
            frame@.len() == length,
            old(frame)@.len() == length,
            forall|k: int|
                0 <= k < length ==> frame@[k] == if start <= k < i {
                    rgba@[(k - start) % 4]
                } else {
                    old(frame)@[k]
                },
        decreases end - i,
    {
        frame.set(i, rgba[part]);
        i += 1;
        part = if part == 3 {
            0
        } else {
            part + 1
        };
    }
    proof {
        assert(frame@ =~= filled(old(frame)@, start as int, count as int, rgba@));
    }
    true
}

/// Turns `count` pixels from byte `start` on into their opposite colour, fully opaque, if
/// the line lies within the frame, and tells whether it does.
pub fn invert_line(frame: &mut Vec<u8>, start: usize, count: usize) -> (r: bool)
    ensures
        final(frame)@ == inverted(old(frame)@, start as int, count as int),
        r == (start + 4 * count <= old(frame)@.len()),
{
    let length = frame.len();
    let bytes = match count.checked_mul(4) {
        Some(bytes) => bytes,
        None => {
            return false;
        },
    };
    let end = match start.checked_add(bytes) {
        Some(end) => end,
        None => {
            return false;
        },
    };
    if end > length {
        return false;
    }
    let mut i = start;
    let mut part: usize = 0;
    while i < end
        invariant
            start <= i <= end <= length,
            end == start + 4 * count,
            part == (i - start) % 4,
            frame@.len() == length,
            old(frame)@.len() == length,
            forall|k: int|
                0 <= k < length ==> frame@[k] == if start <= k < i {
                    if (k - start) % 4 == 3 {
                        255u8
                    } else {
                        (255 - old(frame)@[k]) as u8
                    }
                } else {
                    old(frame)@[k]
                },
        decreases end - i,
    {
        let value = if part == 3 {
            255
        } else {
            255 - frame[i]
        };
        frame.set(i, value);
        i += 1;
        part = if part == 3 {
            0
        } else {
            part + 1
        };
    }
    proof {
        assert(frame@ =~= inverted(old(frame)@, start as int, count as int));
    }
    true
}

/// Copies `data` into the frame from byte `start` on, if it lies within the frame, and
/// tells whether it does.
pub fn copy_line(frame: &mut Vec<u8>, start: usize, data: &[u8]) -> (r: bool)
    ensures
        final(frame)@ == copied(old(frame)@, start as int, data@),
        r == (start + data@.len() <= old(frame)@.len()),
{
    let length = frame.len();
    let end = match start.checked_add(data.len()) {
        Some(end) => end,
        None => {
            return false;
        },
    };
    if end > length {
        return false;
    }
    let mut i: usize = 0;
    while i < data.len()
        invariant
            i <= data@.len(),
            start + data@.len() <= length,
            frame@.len() == length,
            old(frame)@.len() == length,
            forall|k: int|
                0 <= k < length ==> frame@[k] == if start <= k < start + i {
                    data@[k - start]
                } else {
                    old(frame)@[k]
                },
        decreases data@.len() - i,
    {
        frame.set(start + i, data[i]);
        i += 1;
    }
    proof {
        assert(frame@ =~= copied(old(frame)@, start as int, data@));
    }
    true
}

/// Sets every whole pixel of the frame to the colour `rgba`.
pub fn fill_with_rgba(frame: &mut Vec<u8>, rgba: &Rgba)
    ensures
        final(frame)@ == filled(old(frame)@, 0, old(frame)@.len() as int / 4, rgba@),
{
    let count = frame.len() / 4;
    fill_line(frame, 0, count, rgba);
}

/// Sets a rectangle of `width` by `height` pixels, with its upper left corner in column `x`
/// of line `y`, to the colour `rgba`. The lines of the frame hold `total_width` pixels.
pub fn put_rgba(
    frame: &mut Vec<u8>,
    x: usize,
    y: usize,
    width: usize,
    height: usize,
    total_width: usize,
    rgba: &Rgba,
)
    ensures
        final(frame)@ == filled_lines(
            old(frame)@,
            (y * total_width + x) * 4,
            width as int,
            total_width * 4,
            height as nat,
            rgba@,
        ),
{
    let ghost first = (y * total_width + x) * 4;
    let ghost stride = total_width * 4;
    let length = frame.len();
    let mut start = match pixel_offset(x, y, total_width) {
        Some(start) => start,
        None => {
            proof {
                lemma_filled_lines_beyond(frame@, first, width as int, stride, height as nat, rgba@);
            }
            return ;
        },
    };
    let mut row: usize = 0;
    while row < height
        invariant
            row <= height,
            first == (y * total_width + x) * 4,
            stride == total_width * 4,
            start == first + row * stride,
            frame@.len() == length,
            filled_lines(old(frame)@, first, width as int, stride, height as nat, rgba@)
                == filled_lines(frame@, start as int, width as int, stride, (height - row) as nat, rgba@),
        decreases height - row,
    {
        let ghost before = frame@;
        if !fill_line(frame, start, width, rgba) {
            proof {
                lemma_filled_lines_beyond(
                    before,
                    start as int,
                    width as int,
                    stride,
                    (height - row) as nat,
                    rgba@,
                );
            }
            return ;
        }
        let next = match total_width.checked_mul(4) {
            Some(step) => start.checked_add(step),
            None => None,
        };
        row += 1;
        match next {
            Some(next) => {
                proof {
                    assert(first + row * stride == start + stride) by (nonlinear_arith)
                        requires
                            start == first + (row - 1) * stride,
                    ;
                }
                start = next;
            },
            None => {
                proof {
                    lemma_filled_lines_beyond(
                        frame@,
                        start + stride,
                        width as int,
                        stride,
                        (height - row) as nat,
                        rgba@,
                    );
                }
                return ;
            },
        }
    }
}

/// Turns a rectangle of `width` by `height` pixels, with its upper left corner in column
/// `x` of line `y`, into its opposite colours.
pub fn put_inverse(
    frame: &mut Vec<u8>,
    x: usize,
    y: usize,
    width: usize,
    height: usize,
    total_width: usize,
)
    ensures
        final(frame)@ == inverted_lines(
            old(frame)@,
            (y * total_width + x) * 4,
            width as int,
            total_width * 4,
            height as nat,
        ),
{
    let ghost first = (y * total_width + x) * 4;
    let ghost stride = total_width * 4;
    let length = frame.len();
    let mut start = match pixel_offset(x, y, total_width) {
        Some(start) => start,
        None => {
            proof {
                lemma_inverted_lines_beyond(frame@, first, width as int, stride, height as nat);
            }
            return ;
        },
    };
    let mut row: usize = 0;
    while row < height
        invariant
            row <= height,
            first == (y * total_width + x) * 4,
            stride == total_width * 4,
            start == first + row * stride,
            frame@.len() == length,
            inverted_lines(old(frame)@, first, width as int, stride, height as nat)
                == inverted_lines(frame@, start as int, width as int, stride, (height - row) as nat),
        decreases height - row,
    {
        let ghost before = frame@;
        if !invert_line(frame, start, width) {
            proof {
                lemma_inverted_lines_beyond(
                    before,
                    start as int,
                    width as int,
                    stride,
                    (height - row) as nat,
                );
            }
            return ;
        }
        let next = match total_width.checked_mul(4) {
            Some(step) => start.checked_add(step),
            None => None,
        };
        row += 1;
        match next {
            Some(next) => {
                proof {
                    assert(first + row * stride == start + stride) by (nonlinear_arith)
                        requires
                            start == first + (row - 1) * stride,
                    ;
                }
                start = next;
            },
            None => {
                proof {
                    lemma_inverted_lines_beyond(
                        frame@,
                        start + stride,
                        width as int,
                        stride,
                        (height - row) as nat,
                    );
                }
                return ;
            },
        }
    }
}

/// Draws the pixels `font_bytes` of a glyph, `font_width` pixels to the line, with its upper
/// left corner in column `x` of line `y`.
pub fn draw_font(
    frame: &mut Vec<u8>,
    x: usize,
    y: usize,
    font_width: usize,
    total_width: usize,
    font_bytes: &[u8],
)
    ensures
        final(frame)@ == drawn(
            old(frame)@,
            (y * total_width + x) * 4,
            total_width * 4,
            font_bytes@,
            font_width * 4,
        ),
{
    let ghost first = (y * total_width + x) * 4;
    let ghost stride = total_width * 4;
    let ghost chunk = font_width * 4;
    let length = frame.len();
    let size = font_bytes.len();
    let mut start = match pixel_offset(x, y, total_width) {
        Some(start) => start,
        None => {
            return ;
        },
    };
    let width = match font_width.checked_mul(4) {
        Some(width) => width,
        None => {
            return ;
        },
    };
    if width == 0 {
        return ;
    }
    let mut at: usize = 0;
    proof {
        assert(font_bytes@.skip(0) =~= font_bytes@);
    }
    while font_bytes.len() - at >= width
        invariant
            at <= font_bytes@.len(),
            width == chunk,
            width > 0,
            chunk == font_width * 4,
            first == (y * total_width + x) * 4,
            stride == total_width * 4,
            frame@.len() == length,
            drawn(old(frame)@, first, stride, font_bytes@, chunk) == drawn(
                frame@,
                start as int,
                stride,
                font_bytes@.skip(at as int),
                chunk,
            ),
        decreases font_bytes@.len() - at,
    {
        let line = vstd::slice::slice_subrange(font_bytes, at, at + width);
        let ghost before = frame@;
        let ghost rest = font_bytes@.skip(at as int);
        proof {
            assert(line@ =~= rest.take(chunk));
            assert(rest.skip(chunk) =~= font_bytes@.skip(at + width));
        }
        if !copy_line(frame, start, line) {
            return ;
        }
        proof {
            assert(drawn(before, start as int, stride, rest, chunk) == drawn(
                frame@,
                start + stride,
                stride,
                rest.skip(chunk),
                chunk,
            ));
        }
        at += width;
        let next = match total_width.checked_mul(4) {
            Some(step) => start.checked_add(step),
            None => None,
        };
        match next {
            Some(next) => {
                start = next;
            },
            None => {
                proof {
                    assert(start + stride > usize::MAX);
                }
                return ;
            },
        }
    }
    proof {
        assert(font_bytes@.skip(font_bytes@.len() as int).len() == 0);
    }
}

/// Frames that rectangles can be drawn into.
pub trait GetAndPutRgba {
    /// The bytes of the frame.
    spec fn pixels(&self) -> Seq<u8>;

    /// Sets a rectangle of `width` by `height` pixels, with its upper left corner in column
    /// `x` of line `y`, to the colour `rgba`.
    fn put_rgba(
        &mut self,
        x: usize,
        y: usize,
        width: usize,
        height: usize,
        total_width: usize,
        rgba: &Rgba,
    )
        ensures
            final(self).pixels() == filled_lines(
                old(self).pixels(),
                (y * total_width + x) * 4,
                width as int,
                total_width * 4,
                height as nat,
                rgba@,
            ),
    ;

    /// Turns a rectangle of `width` by `height` pixels into its opposite colours.
    fn put_inverse(&mut self, x: usize, y: usize, width: usize, height: usize, total_width: usize)
        ensures
            final(self).pixels() == inverted_lines(
                old(self).pixels(),
                (y * total_width + x) * 4,
                width as int,
                total_width * 4,
                height as nat,
            ),
    ;

    /// Sets every whole pixel of the frame to the colour `rgba`.
    fn fill_with_rgba(&mut self, rgba: &Rgba)
        ensures
            final(self).pixels() == filled(
                old(self).pixels(),
                0,
                old(self).pixels().len() as int / 4,
                rgba@,
            ),
    ;
}

impl GetAndPutRgba for Vec<u8> {
    open spec fn pixels(&self) -> Seq<u8> {
        self@
    }

    fn put_rgba(
        &mut self,
        x: usize,
        y: usize,
        width: usize,
        height: usize,
        total_width: usize,
        rgba: &Rgba,
    ) {
        put_rgba(self, x, y, width, height, total_width, rgba);
    }

    fn put_inverse(&mut self, x: usize, y: usize, width: usize, height: usize, total_width: usize) {
        put_inverse(self, x, y, width, height, total_width);
    }

    fn fill_with_rgba(&mut self, rgba: &Rgba) {
        fill_with_rgba(self, rgba);
    }
}

/// Frames that the pixels of a glyph can be drawn into.
pub trait DrawFont {
    /// The bytes of the frame.
    spec fn canvas(&self) -> Seq<u8>;

    /// Draws the pixels `font_bytes` of a glyph, `font_width` pixels to the line, with its
    /// upper left corner in column `x` of line `y`.
    fn draw_font(
        &mut self,
        x: usize,
        y: usize,
        font_width: usize,
        total_width: usize,
        font_bytes: &[u8],
    )
        ensures
            final(self).canvas() == drawn(
                old(self).canvas(),
                (y * total_width + x) * 4,
                total_width * 4,
                font_bytes@,
                font_width * 4,
            ),
    ;
}

impl DrawFont for Vec<u8> {
    open spec fn canvas(&self) -> Seq<u8> {
        self@
    }

    fn draw_font(
        &mut self,
        x: usize,
        y: usize,
        font_width: usize,
        total_width: usize,
        font_bytes: &[u8],
    ) {
        draw_font(self, x, y, font_width, total_width, font_bytes);
    }
}

} // verus!
