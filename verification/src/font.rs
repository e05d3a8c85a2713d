//! Bitmap fonts of 256 glyphs, eight pixels wide.
//!
//! The bytes of a font hold the glyphs one behind the other, each with one byte for each of
//! its lines, from the top down. The highest bit of a byte is the leftmost pixel.

use vstd::prelude::*;
use crate::ega::{Rgba, BLACK_RGBA, WHITE_RGBA};
use crate::terminal::pixels::{draw_font, drawn, lemma_drawn_len};
use crate::text;

verus! {

/// The ways in which loading or storing a font fails.
#[derive(Clone, Debug, PartialEq, Eq)]
pub enum FontError {
    CouldNotLoadFont,
    CouldNotLocateFont,
    /// The bytes do not hold 256 glyphs of one height, or the image is not sixteen glyphs by
    /// sixteen glyphs.
    IllegalFontSize,
    /// The glyphs are lower than 8 or higher than 32 lines.
    IllegalFontHeight,
    CannotReadFile,
    CannotWriteFile,
    CannotReadImage,
    CannotWriteImage,
}

impl FontError {
    /// The text of the error.
    pub open spec fn text(self) -> Seq<char> {
        match self {
            FontError::CouldNotLoadFont => "Could not load font"@,
            FontError::CouldNotLocateFont => "Could not locate font"@,
            FontError::IllegalFontSize => "Illegal font size"@,
            FontError::IllegalFontHeight => "Illegal font height"@,
            FontError::CannotReadFile => "Cannot read file"@,
            FontError::CannotWriteFile => "Cannot write file"@,
            FontError::CannotReadImage => "Cannot read image"@,
            FontError::CannotWriteImage => "Cannot write image"@,
        }
    }

    /// The text of the error.
    pub fn to_string(&self) -> (r: String)
        ensures
            r@ == self.text(),
    {
        match self {
            FontError::CouldNotLoadFont => text::string_of("Could not load font"),
            FontError::CouldNotLocateFont => text::string_of("Could not locate font"),
            FontError::IllegalFontSize => text::string_of("Illegal font size"),
            FontError::IllegalFontHeight => text::string_of("Illegal font height"),
            FontError::CannotReadFile => text::string_of("Cannot read file"),
            FontError::CannotWriteFile => text::string_of("Cannot write file"),
            FontError::CannotReadImage => text::string_of("Cannot read image"),
            FontError::CannotWriteImage => text::string_of("Cannot write image"),
        }
    }
}

/// Bit `position` of `byte` is set.
pub open spec fn bit_set(byte: u8, position: u8) -> bool {
    byte & (1u8 << position) != 0
}

/// The pixels of glyph `code`, line by line: `true` for a pixel that is set.
pub open spec fn bitmask(bytes: Seq<u8>, height: int, code: u8) -> Seq<bool> {
    Seq::new(
        (8 * height) as nat,
        |p: int| bit_set(bytes[code * height + p / 8], (7 - p % 8) as u8),
    )
}

/// The pixels of glyph `code` in colour: four bytes for each pixel, those of `fg` where the
/// pixel is set and those of `bg` where it is not.
pub open spec fn glyph_pixels(bytes: Seq<u8>, height: int, code: u8, fg: Seq<u8>, bg: Seq<u8>) -> Seq<
    u8,
> {
    Seq::new(
        (32 * height) as nat,
        |i: int|
            if bitmask(bytes, height, code)[i / 4] {
                fg[i % 4]
            } else {
                bg[i % 4]
            },
    )
}

/// The pixels of glyph `code` in colour, one colour for each pixel.
pub open spec fn glyph_colours(bytes: Seq<u8>, height: int, code: u8, fg: Rgba, bg: Rgba) -> Seq<
    Rgba,
> {
    Seq::new(
        (8 * height) as nat,
        |p: int|
            if bitmask(bytes, height, code)[p] {
                fg
            } else {
                bg
            },
    )
}

/// The bytes are those of a font: 256 glyphs of 8 to 32 lines.
pub open spec fn font_bytes(bytes: Seq<u8>) -> bool {
    bytes.len() % 256 == 0 && 8 <= bytes.len() / 256 <= 32
}

/// The pixel in column `x` of line `y` of an image 128 pixels wide is light: red, green and
/// blue are all above 127.
pub open spec fn light(pixels: Seq<u8>, x: int, y: int) -> bool {
    let at = (y * 128 + x) * 4;
    pixels[at] > 127 && pixels[at + 1] > 127 && pixels[at + 2] > 127
}

/// The first `upto` pixels of a line of a glyph as the bits of a number, the leftmost pixel
/// highest: the line begins in column `x` of line `y` of the image.
pub open spec fn line_bits(pixels: Seq<u8>, x: int, y: int, upto: nat) -> nat
    decreases upto,
{
    if upto == 0 {
        0
    } else {
        line_bits(pixels, x, y, (upto - 1) as nat) * 2 + if light(pixels, x + upto - 1, y) {
            1nat
        } else {
            0nat
        }
    }
}

/// The bytes of the font that an image of sixteen by sixteen glyphs shows: glyph after
/// glyph, line after line, a bit set for every light pixel.
pub open spec fn image_font_bytes(pixels: Seq<u8>, height: int) -> Seq<u8> {
    Seq::new(
        (256 * height) as nat,
        |k: int|
            line_bits(
                pixels,
                ((k / height) % 16) * 8,
                ((k / height) / 16) * height + k % height,
                8,
            ) as u8,
    )
}

/// The first byte of the cell of glyph `code` in an image of sixteen by sixteen glyphs.
pub open spec fn sheet_cell(height: int, code: int) -> int {
    (((code / 16) * height) * 128 + (code % 16) * 8) * 4
}

/// The image of the first `upto` glyphs of a font, sixteen to the row, white on black; the
/// cells of the other glyphs are left at zero.
pub open spec fn sheet(bytes: Seq<u8>, height: int, upto: nat) -> Seq<u8>
    decreases upto,
{
    if upto == 0 {
        Seq::new((128 * (16 * height) * 4) as nat, |i: int| 0u8)
    } else {
        drawn(
            sheet(bytes, height, (upto - 1) as nat),
            sheet_cell(height, upto - 1),
            512,
            glyph_pixels(bytes, height, (upto - 1) as u8, WHITE_RGBA@, BLACK_RGBA@),
            32,
        )
    }
}

/// The bits of a line are a number below two to the count of its pixels.
pub proof fn lemma_line_bits(pixels: Seq<u8>, x: int, y: int, upto: nat)
    requires
        upto <= 8,
    ensures
        line_bits(pixels, x, y, upto) < limit_of(upto),
    decreases upto,
{
    if upto > 0 {
        lemma_line_bits(pixels, x, y, (upto - 1) as nat);
    }
}

/// Two to the power of `bits`, for up to eight bits.
pub open spec fn limit_of(bits: nat) -> nat
    decreases bits,
{
    if bits == 0 {
        1
    } else {
        2 * limit_of((bits - 1) as nat)
    }
}

/// A bitmap font.
#[derive(Debug, PartialEq, Eq)]
pub struct Font {
    bytes: Vec<u8>,
    width: usize,
    height: usize,
}

impl Font {
    #[verifier::type_invariant]
    spec fn inv(self) -> bool {
        self.width == 8 && 8 <= self.height <= 32 && self.bytes@.len() == 256 * self.height
    }

    /// The bytes of the font.
    pub closed spec fn bytes(&self) -> Seq<u8> {
        self.bytes@
    }

    /// The number of lines of a glyph.
    pub closed spec fn lines(&self) -> int {
        self.height as int
    }

    /// A font from its bytes. The bytes are to be those of a font.
    pub fn new(bytes: &[u8]) -> (r: Font)
        requires
            font_bytes(bytes@),
        ensures
            r.bytes() == bytes@,
            r.lines() == bytes@.len() / 256,
    {
        let height = bytes.len() / 256;
        Font { bytes: vstd::slice::slice_to_vec(bytes), width: 8, height }
    }

    /// A font from its bytes, or the reason why the bytes are not those of a font.
    pub fn from_bytes(bytes: &[u8]) -> (r: Result<Font, FontError>)
        ensures
            match r {
                Ok(font) => font_bytes(bytes@) && font.bytes() == bytes@ && font.lines()
                    == bytes@.len() / 256,
                Err(error) => if bytes@.len() % 256 != 0 {
                    error == FontError::IllegalFontSize
                } else {
                    error == FontError::IllegalFontHeight && !(8 <= bytes@.len() / 256 <= 32)
                },
            },
    {
        if bytes.len() % 256 != 0 {
            return Err(FontError::IllegalFontSize);
        }
        let height = bytes.len() / 256;
        if height < 8 || height > 32 {
            return Err(FontError::IllegalFontHeight);
        }
        Ok(Font::new(bytes))
    }

    /// The font that an image of sixteen by sixteen glyphs shows. `pixels` hold four bytes
    /// for each pixel of the image, line by line. The image is to be 128 pixels wide and
    /// sixteen glyphs high, else the size is illegal; its glyphs are to have 8 to 32 lines,
    /// else the height is.
    pub fn from_image(pixels: &[u8], image_width: usize, image_height: usize) -> (r: Result<
        Font,
        FontError,
    >)
        ensures
            match r {
                Ok(font) => image_width == 128 && image_height % 16 == 0 && pixels@.len() == 128
                    * image_height * 4 && font.lines() == image_height / 16 && font.bytes()
                    == image_font_bytes(pixels@, image_height as int / 16),
                Err(error) => if image_width != 128 || image_height % 16 != 0 || pixels@.len()
                    != 128 * image_height * 4 {
                    error == FontError::IllegalFontSize
                } else {
                    error == FontError::IllegalFontHeight && !(8 <= image_height / 16 <= 32)
                },
            },
    {
        if image_width != 128 || image_height % 16 != 0 {
            return Err(FontError::IllegalFontSize);
        }
        let height = image_height / 16;
        if height > 32 {
            if pixels.len() / 512 != image_height || pixels.len() % 512 != 0 {
                return Err(FontError::IllegalFontSize);
            }
            return Err(FontError::IllegalFontHeight);
        }
        if pixels.len() != 128 * image_height * 4 {
            return Err(FontError::IllegalFontSize);
        }
        if height < 8 {
            return Err(FontError::IllegalFontHeight);
        }
        let mut bytes: Vec<u8> = Vec::with_capacity(256 * height);
        let mut glyph: usize = 0;
        while glyph < 256
            invariant
                glyph <= 256,
                8 <= height <= 32,
                image_height == 16 * height,
                pixels@.len() == 128 * image_height * 4,
                bytes@.len() == glyph * height,
                forall|k: int|
                    0 <= k < glyph * height ==> bytes@[k] == image_font_bytes(
                        pixels@,
                        height as int,
                    )[k],
            decreases 256 - glyph,
        {
            let x = (glyph % 16) * 8;
            assert((glyph / 16) * height <= 15 * 32) by (nonlinear_arith)
                requires
                    glyph / 16 <= 15,
                    0 <= height <= 32,
            ;
            let top = (glyph / 16) * height;
            assert(top + height <= 16 * height) by (nonlinear_arith)
                requires
                    top == (glyph / 16) * height,
                    glyph / 16 <= 15,
                    height >= 0,
            ;
            assert(glyph * height + height <= 256 * height) by (nonlinear_arith)
                requires
                    glyph < 256,
                    height >= 0,
            ;
            let mut line: usize = 0;
            while line < height
                invariant
                    line <= height,
                    glyph < 256,
                    8 <= height <= 32,
                    image_height == 16 * height,
                    pixels@.len() == 128 * image_height * 4,
                    x == (glyph % 16) * 8,
                    top == (glyph / 16) * height,
                    top + height <= 16 * height,
                    glyph * height + height <= 256 * height,
                    bytes@.len() == glyph * height + line,
                    forall|k: int|
                        0 <= k < glyph * height + line ==> bytes@[k] == image_font_bytes(
                            pixels@,
                            height as int,
                        )[k],
                decreases height - line,
            {
                let y = top + line;
                let mut byte: u8 = 0;
                let mut column: usize = 0;
                while column < 8
                    invariant
                        column <= 8,
                        x + 8 <= 128,
                        y < image_height <= 512,
                        pixels@.len() == 128 * image_height * 4,
                        byte == line_bits(pixels@, x as int, y as int, column as nat),
                        byte < limit_of(column as nat),
                    decreases 8 - column,
                {
                    proof {
                        reveal_with_fuel(limit_of, 9);
                        lemma_line_bits(pixels@, x as int, y as int, (column + 1) as nat);
                        assert((y * 128 + x + column) * 4 + 3 < 128 * image_height * 4)
                            by (nonlinear_arith)
                            requires
                                y < image_height,
                                x + column < 128,
                        ;
                    }
                    let at = (y * 128 + x + column) * 4;
                    let bit: u8 = if pixels[at] > 127 && pixels[at + 1] > 127 && pixels[at + 2]
                        > 127 {
                        1
                    } else {
                        0
                    };
                    byte = byte * 2 + bit;
                    column += 1;
                }
                proof {
                    let k = glyph * height + line;
                    assert(k / (height as int) == glyph && k % (height as int) == line)
                        by (nonlinear_arith)
                        requires
                            k == glyph * height + line,
                            0 <= line < height,
                            glyph >= 0,
                    ;
                }
                bytes.push(byte);
                line += 1;
            }
            proof {
                assert(glyph * height + height == (glyph + 1) * height) by (nonlinear_arith);
            }
            glyph += 1;
        }
        proof {
            assert(bytes@ =~= image_font_bytes(pixels@, height as int));
        }
        Ok(Font::new(bytes.as_slice()))
    }

    /// The image of the font: sixteen by sixteen glyphs, white on black, 128 pixels wide and
    /// sixteen glyphs high, four bytes for each pixel.
    pub fn to_image(&self) -> (r: Vec<u8>)
        ensures
            r@ == sheet(self.bytes(), self.lines(), 256),
    {
        let height = self.height();
        let mut frame: Vec<u8> = vec![0u8;128 * (16 * height) * 4];
        let mut code: usize = 0;
        proof {
            assert(frame@ =~= sheet(self.bytes(), self.lines(), 0));
        }
        while code < 256
            invariant
                code <= 256,
                height == self.lines(),
                8 <= height <= 32,
                frame@ == sheet(self.bytes(), self.lines(), code as nat),
            decreases 256 - code,
        {
            let pixels = self.to_bytes(code as u8, &WHITE_RGBA, &BLACK_RGBA);
            let x = (code % 16) * 8;
            assert((code / 16) * height <= 15 * 32) by (nonlinear_arith)
                requires
                    code / 16 <= 15,
                    0 <= height <= 32,
            ;
            let y = (code / 16) * height;
            draw_font(&mut frame, x, y, 8, 128, pixels.as_slice());
            code += 1;
        }
        frame
    }

    /// A copy of the font.
    pub fn duplicate(&self) -> (r: Font)
        ensures
            r.bytes() == self.bytes(),
            r.lines() == self.lines(),
    {
        proof {
            use_type_invariant(self);
        }
        Font::new(self.bytes.as_slice())
    }

    /// The width of a glyph in pixels: eight.
    pub fn width(&self) -> (r: usize)
        ensures
            r == 8,
    {
        proof {
            use_type_invariant(self);
        }
        self.width
    }

    /// The number of lines of a glyph.
    pub fn height(&self) -> (r: usize)
        ensures
            r == self.lines(),
            8 <= r <= 32,
            self.bytes().len() == 256 * r,
    {
        proof {
            use_type_invariant(self);
        }
        self.height
    }

    /// The bytes of the font.
    pub fn as_slice(&self) -> (r: &[u8])
        ensures
            r@ == self.bytes(),
    {
        self.bytes.as_slice()
    }

    /// The pixels of glyph `code`, line by line: `true` for a pixel that is set.
    pub fn to_bitmask(&self, code: u8) -> (r: Vec<bool>)
        ensures
            r@ == bitmask(self.bytes(), self.lines(), code),
    {
        proof {
            use_type_invariant(self);
        }
        let height = self.height;
        let mut out: Vec<bool> = Vec::with_capacity(8 * height);
        assert(code * height + height <= 256 * height) by (nonlinear_arith)
            requires
                code <= 255,
                0 <= height,
        ;
        let offset = code as usize * height;
        let mut row: usize = 0;
        while row < height
            invariant
                row <= height,
                height == self.lines(),
                8 <= height <= 32,
                self.bytes().len() == 256 * height,
                offset == code * height,
                offset + height <= 256 * height,
                out@.len() == 8 * row,
                forall|p: int|
                    0 <= p < 8 * row ==> out@[p] == bitmask(self.bytes(), self.lines(), code)[p],
            decreases height - row,
        {
            let byte = self.bytes[offset + row];
            let mut column: u8 = 0;
            while column < 8
                invariant
                    column <= 8,
                    row < height,
                    height == self.lines(),
                    8 <= height <= 32,
                    self.bytes().len() == 256 * height,
                    offset == code * height,
                    offset + height <= 256 * height,
                    byte == self.bytes()[offset + row],
                    out@.len() == 8 * row + column,
                    forall|p: int|
                        0 <= p < 8 * row + column ==> out@[p] == bitmask(
                            self.bytes(),
                            self.lines(),
                            code,
                        )[p],
                decreases 8 - column,
            {
                let position: u8 = 7 - column;
                out.push(byte & (1u8 << position) != 0);
                column += 1;
            }
            row += 1;
        }
        proof {
            assert(out@ =~= bitmask(self.bytes(), self.lines(), code));
        }
        out
    }

    /// The pixels of all 256 glyphs, by glyph code.
    pub fn to_bitmasks(&self) -> (r: Vec<Vec<bool>>)
        ensures
            r@.len() == 256,
            forall|code: u8| (#[trigger] r@[code as int])@ == bitmask(self.bytes(), self.lines(), code),
    {
        let mut out: Vec<Vec<bool>> = Vec::with_capacity(256);
        let mut code: u8 = 0;
        loop
            invariant_except_break
                out@.len() == code,
                forall|c: u8|
                    c < code ==> (#[trigger] out@[c as int])@ == bitmask(
                        self.bytes(),
                        self.lines(),
                        c,
                    ),
            ensures
                out@.len() == 256,
                forall|c: u8| (#[trigger] out@[c as int])@ == bitmask(self.bytes(), self.lines(), c),
            decreases 255 - code,
        {
            out.push(self.to_bitmask(code));
            if code == 255 {
                break ;
            }
            code += 1;
        }
        out
    }

    /// The pixels of glyph `code` in colour: four bytes for each pixel.
    pub fn to_bytes(&self, code: u8, fg_rgba: &Rgba, bg_rgba: &Rgba) -> (r: Vec<u8>)
        ensures
            r@ == glyph_pixels(self.bytes(), self.lines(), code, fg_rgba@, bg_rgba@),
    {
        let mask = self.to_bitmask(code);
        let height = self.height();
        let mut out: Vec<u8> = Vec::with_capacity(32 * height);
        let mut p: usize = 0;
        while p < mask.len()
            invariant
                p <= mask@.len(),
                mask@ == bitmask(self.bytes(), self.lines(), code),
                mask@.len() == 8 * self.lines(),
                8 <= self.lines() <= 32,
                out@.len() == 4 * p,
                forall|i: int|
                    0 <= i < 4 * p ==> out@[i] == glyph_pixels(
                        self.bytes(),
                        self.lines(),
                        code,
                        fg_rgba@,
                        bg_rgba@,
                    )[i],
            decreases mask@.len() - p,
        {
            let colour = if mask[p] {
                fg_rgba
            } else {
                bg_rgba
            };
            out.push(colour[0]);
            out.push(colour[1]);
            out.push(colour[2]);
            out.push(colour[3]);
            p += 1;
        }
        proof {
            assert(out@ =~= glyph_pixels(self.bytes(), self.lines(), code, fg_rgba@, bg_rgba@));
        }
        out
    }

    /// The pixels of glyph `byte` in colour, one colour for each pixel.
    pub fn to_vec(&self, byte: u8, fg_rgba: &Rgba, bg_rgba: &Rgba) -> (r: Vec<Rgba>)
        ensures
            r@ == glyph_colours(self.bytes(), self.lines(), byte, *fg_rgba, *bg_rgba),
    {
        let mask = self.to_bitmask(byte);
        let mut out: Vec<Rgba> = Vec::with_capacity(mask.len());
        let mut p: usize = 0;
        while p < mask.len()
            invariant
                p <= mask@.len(),
                mask@ == bitmask(self.bytes(), self.lines(), byte),
                out@.len() == p,
                forall|i: int|
                    0 <= i < p ==> out@[i] == glyph_colours(
                        self.bytes(),
                        self.lines(),
                        byte,
                        *fg_rgba,
                        *bg_rgba,
                    )[i],
            decreases mask@.len() - p,
        {
            if mask[p] {
                out.push(*fg_rgba);
            } else {
                out.push(*bg_rgba);
            }
            p += 1;
        }
        proof {
            assert(out@ =~= glyph_colours(self.bytes(), self.lines(), byte, *fg_rgba, *bg_rgba));
        }
        out
    }
}

} // verus!
