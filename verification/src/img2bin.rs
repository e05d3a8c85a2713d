//! Turning an image of a text screen back into glyphs and colours.
//!
//! The image is cut into blocks of eight by sixteen pixels. A block of at most two colours is
//! looked up among the glyphs of a font, as it is or with its colours swapped.

use vstd::prelude::*;
use crate::ega::{same_rgba, Rgba};

verus! {

/// Tells that an image cannot be turned into text.
#[derive(Clone, Copy, Debug, PartialEq, Eq)]
pub struct Img2binError;

impl Img2binError {
    /// The text of the error.
    pub fn to_string(&self) -> (r: String)
        ensures
            r@ == "Img2bin Error"@,
    {
        crate::text::string_of("Img2bin Error")
    }
}

/// A glyph with the colours it is shown in, by their places in a palette.
#[derive(Clone, Copy, Debug, PartialEq, Eq)]
pub struct Block {
    pub code: usize,
    pub fg: usize,
    pub bg: usize,
}

/// What a block of an image shows: which pixels have the first colour met, and the at most
/// two colours of the block.
#[derive(Clone, Debug, PartialEq, Eq)]
pub struct ParsedBlock {
    /// `true` for the pixels in the colour `fg`.
    pub bitmask: Vec<bool>,
    /// The colour of the first pixel.
    pub fg: Option<Rgba>,
    /// The other colour, if there is one.
    pub bg: Option<Rgba>,
}

/// A block as plain values.
pub struct Scan {
    pub mask: Seq<bool>,
    pub fg: Option<Seq<u8>>,
    pub bg: Option<Seq<u8>>,
}

impl View for ParsedBlock {
    type V = Scan;

    open spec fn view(&self) -> Scan {
        Scan {
            mask: self.bitmask@,
            fg: match self.fg {
                Some(rgba) => Some(rgba@),
                None => None,
            },
            bg: match self.bg {
                Some(rgba) => Some(rgba@),
                None => None,
            },
        }
    }
}

/// The four bytes of the pixel in column `x` of line `y` of an image `width` pixels wide.
pub open spec fn pixel_at(pixels: Seq<u8>, width: int, x: int, y: int) -> Seq<u8> {
    pixels.subrange((y * width + x) * 4, (y * width + x) * 4 + 4)
}

/// A block after one more pixel: the first colour met is the colour `fg`, the second the
/// colour `bg`; a third colour spoils the block.
pub open spec fn scan_step(scan: Scan, pixel: Seq<u8>) -> Option<Scan> {
    match scan.fg {
        None => Some(Scan { mask: scan.mask.push(true), fg: Some(pixel), bg: scan.bg }),
        Some(fg) => if fg == pixel {
            Some(Scan { mask: scan.mask.push(true), ..scan })
        } else {
            match scan.bg {
                None => Some(Scan { mask: scan.mask.push(false), fg: scan.fg, bg: Some(pixel) }),
                Some(bg) => if bg == pixel {
                    Some(Scan { mask: scan.mask.push(false), ..scan })
                } else {
                    None
                },
            }
        },
    }
}

/// The first `upto` pixels of the block with its upper left corner in column `x` of line
/// `y`, read line by line; `None` where they show more than two colours.
pub open spec fn scanned(pixels: Seq<u8>, width: int, x: int, y: int, upto: nat) -> Option<Scan>
    decreases upto,
{
    if upto == 0 {
        Some(Scan { mask: Seq::empty(), fg: None, bg: None })
    } else {
        match scanned(pixels, width, x, y, (upto - 1) as nat) {
            None => None,
            Some(scan) => scan_step(
                scan,
                pixel_at(pixels, width, x + (upto - 1) % 8, y + (upto - 1) / 8),
            ),
        }
    }
}

/// A block that is spoiled after some of its pixels stays spoiled.
pub proof fn lemma_scan_spoiled(pixels: Seq<u8>, width: int, x: int, y: int, from: nat, to: nat)
    requires
        from <= to,
        scanned(pixels, width, x, y, from) is None,
    ensures
        scanned(pixels, width, x, y, to) is None,
    decreases to - from,
{
    if from < to {
        lemma_scan_spoiled(pixels, width, x, y, from, (to - 1) as nat);
    }
}

/// The block with every pixel turned over and the two colours swapped.
pub open spec fn negative(scan: Scan) -> Scan {
    Scan { mask: scan.mask.map_values(|bit: bool| !bit), fg: scan.bg, bg: scan.fg }
}

/// Glyph `code` shows the block: as it is, or, for a block of two colours, with its colours
/// swapped.
pub open spec fn shows(scan: Scan, masks: Seq<Seq<bool>>, code: int) -> bool {
    masks[code] == scan.mask || (scan.bg is Some && masks[code] == negative(scan).mask)
}

/// The bytes of a cell of text: the glyph and its colours, the colour of the background in
/// the high four bits.
///
/// A block that matched the empty glyph becomes a space on black where its colour is
/// black, and a full block in the colour of its background otherwise. Where the colour of
/// the glyph is of the dark half of the palette, the shaded and the half blocks are
/// replaced by their counterparts with the colours swapped, so that the bright colour is
/// the colour of the glyph.
pub open spec fn cell_of(block: Block) -> (u8, u8) {
    let first = if block.code == 0 {
        if block.fg == 0 {
            Block { code: 32, fg: 0, bg: 0 }
        } else {
            Block { code: 219, fg: block.bg, bg: block.bg }
        }
    } else {
        block
    };
    let swapped = Block { fg: first.bg, bg: first.fg, ..first };
    let second = if first.fg < 8 {
        if first.code == 176 {
            Block { code: 178, ..swapped }
        } else if first.code == 177 {
            Block { code: 177, ..swapped }
        } else if first.code == 178 {
            Block { code: 176, ..swapped }
        } else if first.code == 220 {
            Block { code: 223, ..swapped }
        } else if first.code == 221 {
            Block { code: 222, ..swapped }
        } else if first.code == 222 {
            Block { code: 221, ..swapped }
        } else if first.code == 223 {
            Block { code: 220, ..swapped }
        } else {
            first
        }
    } else {
        first
    };
    ((second.code % 256) as u8, ((second.fg + second.bg * 16) % 256) as u8)
}

/// Reads the block with its upper left corner in column `x` of line `y` of an image.
/// `pixels` hold four bytes for each pixel, line by line. Fails where the block shows more
/// than two colours.
pub fn parse_block(pixels: &[u8], width: usize, height: usize, x: usize, y: usize) -> (r: Result<
    ParsedBlock,
    Img2binError,
>)
    requires
        pixels@.len() == width * height * 4,
        x + 8 <= width,
        y + 16 <= height,
    ensures
        match r {
            Ok(block) => scanned(pixels@, width as int, x as int, y as int, 128) == Some(block@),
            Err(_) => scanned(pixels@, width as int, x as int, y as int, 128) is None,
        },
{
    let mut block = ParsedBlock { bitmask: Vec::with_capacity(128), fg: None, bg: None };
    let mut p: usize = 0;
    let size = pixels.len();
    while p < 128
        invariant
            p <= 128,
            pixels@.len() == width * height * 4,
            pixels@.len() <= usize::MAX,
            x + 8 <= width,
            y + 16 <= height,
            scanned(pixels@, width as int, x as int, y as int, p as nat) == Some(block@),
        decreases 128 - p,
    {
        let column = x + p % 8;
        let line = y + p / 8;
        assert((line * width + column) * 4 + 4 <= width * height * 4) by (nonlinear_arith)
            requires
                line < height,
                column < width,
        ;
        assert(line * width <= width * height) by (nonlinear_arith)
            requires
                line < height,
                width >= 0,
        ;
        let at = (line * width + column) * 4;
        let pixel: Rgba = [pixels[at], pixels[at + 1], pixels[at + 2], pixels[at + 3]];
        proof {
            assert(pixel@ =~= pixel_at(pixels@, width as int, column as int, line as int));
        }
        let ghost before = block@;
        match block.fg {
            None => {
                block.fg = Some(pixel);
                block.bitmask.push(true);
            },
            Some(fg) => {
                if same_rgba(&fg, &pixel) {
                    block.bitmask.push(true);
                } else {
                    match block.bg {
                        None => {
                            block.bg = Some(pixel);
                            block.bitmask.push(false);
                        },
                        Some(bg) => {
                            if same_rgba(&bg, &pixel) {
                                block.bitmask.push(false);
                            } else {
                                proof {
                                    assert(scan_step(before, pixel@) is None);
                                    lemma_scan_spoiled(
                                        pixels@,
                                        width as int,
                                        x as int,
                                        y as int,
                                        (p + 1) as nat,
                                        128,
                                    );
                                }
                                return Err(Img2binError);
                            }
                        },
                    }
                }
            },
        }
        proof {
            assert(scan_step(before, pixel@) == Some(block@));
        }
        p += 1;
    }
    Ok(block)
}

/// Reads the blocks of an image, row by row: one block of eight pixels at the start of every
/// `font_width` pixels of a line of sixteen pixel lines. Fails where a block shows more than
/// two colours.
pub fn parse_blocks(pixels: &[u8], width: usize, height: usize, font_width: usize) -> (r: Result<
    Vec<ParsedBlock>,
    Img2binError,
>)
    requires
        pixels@.len() == width * height * 4,
        font_width >= 8,
    ensures
        match r {
            Ok(blocks) => blocks@.len() == (height / 16) * (width / font_width) && forall|
                i: int,
            |
                0 <= i < blocks@.len() ==> scanned(
                    pixels@,
                    width as int,
                    (i % (width as int / font_width as int)) * font_width,
                    (i / (width as int / font_width as int)) * 16,
                    128,
                ) == Some((#[trigger] blocks@[i])@),
            Err(_) => exists|i: int|
                0 <= i < (height / 16) * (width / font_width) && (#[trigger] scanned(
                    pixels@,
                    width as int,
                    (i % (width as int / font_width as int)) * font_width,
                    (i / (width as int / font_width as int)) * 16,
                    128,
                )) is None,
        },
{
    let columns = width / font_width;
    let rows = height / 16;
    let mut blocks: Vec<ParsedBlock> = Vec::new();
    let mut row: usize = 0;
    while row < rows
        invariant
            row <= rows,
            rows == height / 16,
            columns == width / font_width,
            font_width >= 8,
            pixels@.len() == width * height * 4,
            blocks@.len() == row * columns,
            forall|i: int|
                0 <= i < blocks@.len() ==> scanned(
                    pixels@,
                    width as int,
                    (i % (columns as int)) * font_width,
                    (i / (columns as int)) * 16,
                    128,
                ) == Some((#[trigger] blocks@[i])@),
        decreases rows - row,
    {
        let y = row * 16;
        let mut column: usize = 0;
        while column < columns
            invariant
                column <= columns,
                row < rows,
                rows == height / 16,
                columns == width / font_width,
                font_width >= 8,
                y == row * 16,
                pixels@.len() == width * height * 4,
                blocks@.len() == row * columns + column,
                forall|i: int|
                    0 <= i < blocks@.len() ==> scanned(
                        pixels@,
                        width as int,
                        (i % (columns as int)) * font_width,
                        (i / (columns as int)) * 16,
                        128,
                    ) == Some((#[trigger] blocks@[i])@),
            decreases columns - column,
        {
            assert(column * font_width + font_width <= width) by (nonlinear_arith)
                requires
                    column < columns,
                    columns == width / font_width,
                    font_width >= 8,
            ;
            assert(row * columns + column < rows * columns) by (nonlinear_arith)
                requires
                    row < rows,
                    column < columns,
            ;
            let x = column * font_width;
            let ghost index = row * columns + column;
            proof {
                assert(index / (columns as int) == row && index % (columns as int) == column)
                    by (nonlinear_arith)
                    requires
                        index == row * columns + column,
                        0 <= column < columns,
                        row >= 0,
                ;
            }
            match parse_block(pixels, width, height, x, y) {
                Ok(block) => {
                    blocks.push(block);
                },
                Err(error) => {
                    return Err(error);
                },
            }
            column += 1;
        }
        proof {
            assert(row * columns + columns == (row + 1) * columns) by (nonlinear_arith);
        }
        row += 1;
    }
    Ok(blocks)
}

/// The block with every pixel turned over and the two colours swapped.
pub fn inverse(block: &ParsedBlock) -> (r: ParsedBlock)
    ensures
        r@ == negative(block@),
{
    let mut bitmask: Vec<bool> = Vec::with_capacity(block.bitmask.len());
    let mut i: usize = 0;
    while i < block.bitmask.len()
        invariant
            i <= block.bitmask@.len(),
            bitmask@ == block.bitmask@.take(i as int).map_values(|bit: bool| !bit),
        decreases block.bitmask@.len() - i,
    {
        bitmask.push(!block.bitmask[i]);
        i += 1;
        proof {
            assert(bitmask@ =~= block.bitmask@.take(i as int).map_values(|bit: bool| !bit));
        }
    }
    proof {
        assert(block.bitmask@.take(i as int) =~= block.bitmask@);
    }
    ParsedBlock { bitmask, fg: block.bg, bg: block.fg }
}

/// Tells whether two lists of pixels are the same.
pub fn same_mask(a: &[bool], b: &[bool]) -> (r: bool)
    ensures
        r == (a@ == b@),
{
    if a.len() != b.len() {
        return false;
    }
    let mut i: usize = 0;
    while i < a.len()
        invariant
            i <= a@.len(),
            a@.len() == b@.len(),
            forall|k: int| 0 <= k < i ==> a@[k] == b@[k],
        decreases a@.len() - i,
    {
        if a[i] != b[i] {
            return false;
        }
        i += 1;
    }
    proof {
        assert(a@ =~= b@);
    }
    true
}

/// The views of the pixels of the glyphs of a font.
pub open spec fn masks_of(font_bitmasks: Seq<Vec<bool>>) -> Seq<Seq<bool>> {
    font_bitmasks.map_values(|mask: Vec<bool>| mask@)
}

/// Looks a block up among the glyphs: the first glyph that shows it, and whether it does so
/// with the colours swapped; `None` where no glyph does.
pub fn find_glyph(block: &ParsedBlock, font_bitmasks: &Vec<Vec<bool>>) -> (r: Option<(usize, bool)>)
    ensures
        match r {
            Some((code, swapped)) => code < font_bitmasks@.len() && shows(
                block@,
                masks_of(font_bitmasks@),
                code as int,
            ) && swapped == (masks_of(font_bitmasks@)[code as int] != block@.mask) && forall|
                k: int,
            |
                0 <= k < code ==> !shows(block@, masks_of(font_bitmasks@), k),
            None => forall|k: int|
                0 <= k < font_bitmasks@.len() ==> !shows(block@, masks_of(font_bitmasks@), k),
        },
{
    let turned = inverse(block);
    let mut code: usize = 0;
    while code < font_bitmasks.len()
        invariant
            code <= font_bitmasks@.len(),
            turned@ == negative(block@),
            forall|k: int| 0 <= k < code ==> !shows(block@, masks_of(font_bitmasks@), k),
        decreases font_bitmasks@.len() - code,
    {
        let mask = font_bitmasks[code].as_slice();
        if same_mask(block.bitmask.as_slice(), mask) {
            return Some((code, false));
        }
        if block.bg.is_some() && same_mask(turned.bitmask.as_slice(), mask) {
            return Some((code, true));
        }
        code += 1;
    }
    None
}

/// The two bytes of a cell of text for a block: the glyph, and the colours with the colour
/// of the background in the high four bits. Of numbers that a byte does not hold, the
/// lowest eight bits are kept.
pub fn to_cell(block: Block) -> (r: (u8, u8))
    ensures
        r == cell_of(block),
{
    let mut code = block.code;
    let mut fg = block.fg;
    let mut bg = block.bg;
    if code == 0 {
        if fg == 0 {
            code = 32;
            bg = 0;
        } else {
            code = 219;
            fg = bg;
        }
    }
    if fg < 8 {
        let swapped: Option<usize> = if code == 176 {
            Some(178)
        } else if code == 177 {
            Some(177)
        } else if code == 178 {
            Some(176)
        } else if code == 220 {
            Some(223)
        } else if code == 221 {
            Some(222)
        } else if code == 222 {
            Some(221)
        } else if code == 223 {
            Some(220)
        } else {
            None
        };
        if let Some(other) = swapped {
            let kept = fg;
            fg = bg;
            bg = kept;
            code = other;
        }
    }
    let colours = (fg % 256) + (bg % 16) * 16;
    assert((fg + bg * 16) % 256 == ((fg % 256) + (bg % 16) * 16) % 256) by {
        assert(bg * 16 == (bg / 16) * 256 + (bg % 16) * 16);
        vstd::arithmetic::div_mod::lemma_mod_multiples_vanish(
            (fg / 256) + (bg / 16),
            ((fg % 256) + (bg % 16) * 16) as int,
            256,
        );
    }
    ((code % 256) as u8, (colours % 256) as u8)
}

} // verus!
