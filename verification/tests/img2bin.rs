use ansiart::font::Font;
use ansiart::img2bin::{
    find_glyph, inverse, parse_block, parse_blocks, same_mask, to_cell, Block, Img2binError,
    ParsedBlock,
};
use ansiart::sauce::auto::{auto_kind, AutoKind};
use ansiart::sauce::{DataType, FileType};

const RED: [u8; 4] = [255, 0, 0, 255];
const BLUE: [u8; 4] = [0, 0, 255, 255];
const GREEN: [u8; 4] = [0, 255, 0, 255];

fn image(width: usize, height: usize, colour: impl Fn(usize, usize) -> [u8; 4]) -> Vec<u8> {
    let mut pixels = vec![];
    for y in 0..height {
        for x in 0..width {
            pixels.extend_from_slice(&colour(x, y));
        }
    }
    pixels
}

#[test]
fn a_block_has_at_most_two_colours() {
    let pixels = image(16, 16, |x, y| if x == 8 && y == 0 { BLUE } else if x >= 8 { RED } else { GREEN });
    let block = parse_block(&pixels, 16, 16, 0, 0).unwrap();
    assert_eq!(block.fg, Some(GREEN));
    assert_eq!(block.bg, None);
    assert_eq!(block.bitmask, vec![true; 128]);
    let block = parse_block(&pixels, 16, 16, 8, 0).unwrap();
    assert_eq!(block.fg, Some(BLUE));
    assert_eq!(block.bg, Some(RED));
    assert_eq!(block.bitmask.iter().filter(|bit| **bit).count(), 1);
    assert!(block.bitmask[0]);
    assert_eq!(parse_block(&pixels, 16, 16, 4, 0), Err(Img2binError));
    assert_eq!(parse_blocks(&pixels, 16, 16, 8).unwrap().len(), 2);
    assert_eq!(parse_blocks(&pixels, 16, 16, 9).unwrap().len(), 1);
    assert_eq!(parse_blocks(&pixels, 16, 15, 8).unwrap().len(), 0);
    let spoiled = image(16, 32, |x, y| if y == 31 { [x as u8, 0, 0, 255] } else { RED });
    assert_eq!(parse_blocks(&spoiled, 16, 32, 8), Err(Img2binError));
    assert_eq!(Img2binError.to_string(), "Img2bin Error");
}

#[test]
fn blocks_are_looked_up_among_the_glyphs() {
    let mut bytes = vec![0u8; 4096];
    for line in 0..16 {
        bytes[65 * 16 + line] = 0xF0;
        bytes[219 * 16 + line] = 0xFF;
    }
    let masks = Font::new(&bytes).to_bitmasks();
    let left = ParsedBlock {
        bitmask: (0..128).map(|p| p % 8 < 4).collect(),
        fg: Some(RED),
        bg: Some(BLUE),
    };
    assert_eq!(find_glyph(&left, &masks), Some((65, false)));
    let right = inverse(&left);
    assert_eq!(right.fg, Some(BLUE));
    assert_eq!(right.bg, Some(RED));
    assert!(same_mask(&right.bitmask, &(0..128).map(|p| p % 8 >= 4).collect::<Vec<bool>>()));
    assert_eq!(find_glyph(&right, &masks), Some((65, true)));
    let full = ParsedBlock {
        bitmask: vec![true; 128],
        fg: Some(RED),
        bg: None,
    };
    assert_eq!(find_glyph(&full, &masks), Some((219, false)));
    let empty = ParsedBlock {
        bitmask: vec![false; 128],
        fg: Some(RED),
        bg: Some(BLUE),
    };
    assert_eq!(find_glyph(&empty, &masks), Some((0, false)));
    let other = ParsedBlock {
        bitmask: (0..128).map(|p| p % 2 == 0).collect(),
        fg: Some(RED),
        bg: Some(BLUE),
    };
    assert_eq!(find_glyph(&other, &masks), None);
    assert!(!same_mask(&[true], &[true, false]));
}

#[test]
fn cells_put_the_bright_colour_in_front() {
    let cell = |code, fg, bg| to_cell(Block { code, fg, bg });
    assert_eq!(cell(65, 7, 1), (65, 0x17));
    assert_eq!(cell(0, 0, 5), (32, 0x00));
    assert_eq!(cell(0, 3, 5), (219, 0x55));
    assert_eq!(cell(0, 3, 9), (219, 0x99));
    assert_eq!(cell(176, 2, 9), (178, 0x29));
    assert_eq!(cell(177, 2, 9), (177, 0x29));
    assert_eq!(cell(178, 2, 9), (176, 0x29));
    assert_eq!(cell(220, 0, 15), (223, 0x0F));
    assert_eq!(cell(221, 0, 15), (222, 0x0F));
    assert_eq!(cell(222, 0, 15), (221, 0x0F));
    assert_eq!(cell(223, 0, 15), (220, 0x0F));
    assert_eq!(cell(176, 9, 2), (176, 0x29));
    assert_eq!(cell(255, 15, 15), (255, 0xFF));
    assert_eq!(cell(256 + 65, 256 + 9, 16 + 2), (65, 0x29));
}

#[test]
fn extensions_tell_category_and_kind() {
    assert_eq!(auto_kind("GIF"), Some(AutoKind::Image(FileType::Gif)));
    assert_eq!(auto_kind("JPG"), Some(AutoKind::Image(FileType::Jpg)));
    assert_eq!(auto_kind("PNG"), Some(AutoKind::Image(FileType::Png)));
    assert_eq!(auto_kind("IT"), Some(AutoKind::Plain(DataType::Audio, FileType::It)));
    assert_eq!(auto_kind("MP4"), Some(AutoKind::Plain(DataType::Bitmap, FileType::Mpg)));
    assert_eq!(
        auto_kind("RIP"),
        Some(AutoKind::Plain(DataType::Character, FileType::RipScript))
    );
    assert_eq!(auto_kind("S3M"), Some(AutoKind::Plain(DataType::Audio, FileType::S3m)));
    assert_eq!(auto_kind("gif"), None);
    assert_eq!(auto_kind("ANS"), None);
}
