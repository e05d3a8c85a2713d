use ansiart::ega::{
    convert_ega_to_rgb, ega_to_rgb, ega_to_rgba, EgaPalette, ANSI_ORDER, BLACK_RGBA, CGA_ORDER,
    WHITE_RGBA,
};
use ansiart::font::{Font, FontError};
use ansiart::parser::{AnsiParser, Sequence};
use ansiart::terminal::pixels::{draw_font, fill_with_rgba, put_inverse, put_rgba};
use ansiart::terminal::{Blink, Buffer, Cursor, Reaction, Style, Terminal};

fn font(height: usize) -> Font {
    let mut bytes = vec![0u8; 256 * height];
    for code in 0..256usize {
        for line in 0..height {
            bytes[code * height + line] = (code as u8).rotate_left(line as u32) ^ (line as u8);
        }
    }
    let full = 219 * height;
    for line in 0..height {
        bytes[full + line] = 0xFF;
        bytes[32 * height + line] = 0;
    }
    Font::from_bytes(&bytes).unwrap()
}

fn pixel(frame: &[u8], width: usize, x: usize, y: usize) -> [u8; 4] {
    let at = (y * width + x) * 4;
    [frame[at], frame[at + 1], frame[at + 2], frame[at + 3]]
}

#[test]
fn blink_switches_every_delay_tics() {
    let mut blink = Blink::new(3);
    assert!(blink.is_on());
    assert_eq!(
        (0..7).map(|_| blink.tic()).collect::<Vec<bool>>(),
        vec![true, true, false, false, false, true, true]
    );
    blink.reset();
    assert!(blink.is_on());
    assert_eq!(
        (0..3).map(|_| blink.tic()).collect::<Vec<bool>>(),
        vec![true, true, false]
    );
    let mut blink = Blink::new(1);
    assert_eq!(
        (0..3).map(|_| blink.tic()).collect::<Vec<bool>>(),
        vec![false, true, false]
    );
}

#[test]
fn cursor_starts_at_the_first_cell() {
    let mut cursor = Cursor::new(3);
    assert_eq!((cursor.column, cursor.row, cursor.height), (0, 0, 3));
    cursor.column = 5;
    cursor.row = 6;
    for _ in 0..7 {
        cursor.blink.tic();
    }
    assert!(!cursor.blink.is_on());
    cursor.reset_blink();
    assert!(cursor.blink.is_on());
    let stored = cursor.stored();
    assert_eq!((stored.column, stored.row, stored.height), (5, 6, 2));
    let usual = Cursor::default();
    assert_eq!((usual.column, usual.row, usual.height), (0, 0, 2));
}

#[test]
fn ega_colours_have_four_strengths() {
    assert_eq!(convert_ega_to_rgb(0), (0, 0, 0));
    assert_eq!(convert_ega_to_rgb(63), (255, 255, 255));
    assert_eq!(convert_ega_to_rgb(20), (170, 85, 0));
    assert_eq!(convert_ega_to_rgb(1), (0, 0, 170));
    assert_eq!(convert_ega_to_rgb(8), (0, 0, 85));
    assert_eq!(convert_ega_to_rgb(4), (170, 0, 0));
    assert_eq!(convert_ega_to_rgb(56), (85, 85, 85));
    assert_eq!(ega_to_rgba(2), [0, 170, 0, 255]);
    assert_eq!(ega_to_rgb(7), [170, 170, 170]);
    assert_eq!(BLACK_RGBA, ega_to_rgba(0));
    assert_eq!(WHITE_RGBA, ega_to_rgba(63));
}

#[test]
fn palettes_hold_their_colours_in_order() {
    let ansi = EgaPalette::ansi();
    assert_eq!(ansi.len(), 16);
    assert!(!ansi.is_empty());
    for (index, value) in ANSI_ORDER.iter().enumerate() {
        assert_eq!(ansi.get(index).unwrap().value, *value);
        assert_eq!(ansi.get(index).unwrap().rgba, ega_to_rgba(*value));
    }
    assert_eq!(ansi.get(1).unwrap().rgb, [170, 0, 0]);
    assert!(ansi.get(16).is_none());
    let cga = EgaPalette::cga();
    assert_eq!(cga.get(6).unwrap().value, CGA_ORDER[6]);
    assert_eq!(cga.index_of(&[170, 85, 0, 255]), Some(6));
    assert_eq!(cga.index_of(&[170, 85, 0, 0]), None);
    let all = EgaPalette::all();
    assert_eq!(all.len(), 64);
    assert_eq!(all.get(63).unwrap().rgba, WHITE_RGBA);
    assert!(EgaPalette::new(&[]).is_empty());
}

#[test]
fn rectangles_are_clipped_line_by_line() {
    let red = [255, 0, 0, 255];
    let mut frame = vec![0u8; 4 * 3 * 4];
    put_rgba(&mut frame, 1, 1, 2, 2, 4, &red);
    for y in 0..3 {
        for x in 0..4 {
            let inside = (1..3).contains(&x) && (1..3).contains(&y);
            let expected = if inside { red } else { [0, 0, 0, 0] };
            assert_eq!(pixel(&frame, 4, x, y), expected);
        }
    }
    let mut frame = vec![0u8; 4 * 3 * 4];
    put_rgba(&mut frame, 2, 1, 3, 4, 4, &red);
    assert_eq!(pixel(&frame, 4, 2, 1), red);
    assert_eq!(pixel(&frame, 4, 0, 2), red);
    assert_eq!(pixel(&frame, 4, 1, 2), [0, 0, 0, 0]);
    assert_eq!(pixel(&frame, 4, 2, 2), [0, 0, 0, 0]);
    let mut frame = vec![7u8; 10];
    fill_with_rgba(&mut frame, &red);
    assert_eq!(frame, vec![255, 0, 0, 255, 255, 0, 0, 255, 7, 7]);
    let mut frame = vec![1u8; 16];
    put_rgba(&mut frame, usize::MAX, usize::MAX, 1, 1, usize::MAX, &red);
    assert_eq!(frame, vec![1u8; 16]);
}

#[test]
fn inverse_turns_colours_over() {
    let mut frame = vec![10u8, 20, 30, 40, 50, 60, 70, 80];
    put_inverse(&mut frame, 1, 0, 1, 1, 2);
    assert_eq!(frame, vec![10, 20, 30, 40, 205, 195, 185, 255]);
    put_inverse(&mut frame, 0, 0, 2, 1, 2);
    assert_eq!(frame, vec![245, 235, 225, 255, 50, 60, 70, 255]);
}

#[test]
fn glyphs_are_drawn_until_a_line_does_not_fit() {
    let data: Vec<u8> = (1..=16).collect();
    let mut frame = vec![0u8; 3 * 3 * 4];
    draw_font(&mut frame, 1, 1, 2, 3, &data);
    let mut expected = vec![0u8; 36];
    expected[16..24].copy_from_slice(&data[0..8]);
    expected[28..36].copy_from_slice(&data[8..16]);
    assert_eq!(frame, expected);
    let mut frame = vec![0u8; 3 * 3 * 4];
    draw_font(&mut frame, 1, 2, 2, 3, &data);
    let mut expected = vec![0u8; 36];
    expected[28..36].copy_from_slice(&data[0..8]);
    assert_eq!(frame, expected);
    let mut frame = vec![0u8; 8];
    draw_font(&mut frame, 0, 0, 0, 2, &data);
    assert_eq!(frame, vec![0u8; 8]);
}

#[test]
fn buffers_scroll_and_clear() {
    let mut buffer = Buffer::new(2, 3);
    assert_eq!(buffer.frame.len(), 24);
    assert!(buffer.frame.chunks(4).all(|chunk| chunk == BLACK_RGBA));
    buffer.fill_rect(0, 1, 2, 1, &[1, 2, 3, 4]);
    buffer.fill_rect(0, 2, 2, 1, &[5, 6, 7, 8]);
    buffer.scroll_up(1);
    assert_eq!(pixel(&buffer.frame, 2, 0, 0), [1, 2, 3, 4]);
    assert_eq!(pixel(&buffer.frame, 2, 1, 1), [5, 6, 7, 8]);
    assert_eq!(pixel(&buffer.frame, 2, 0, 2), BLACK_RGBA);
    buffer.clear_rect(1, 0, 1, 2);
    assert_eq!(pixel(&buffer.frame, 2, 1, 0), BLACK_RGBA);
    assert_eq!(pixel(&buffer.frame, 2, 0, 1), [5, 6, 7, 8]);
    buffer.draw_font(0, 0, 1, &[9, 9, 9, 9, 8, 8, 8, 8]);
    assert_eq!(pixel(&buffer.frame, 2, 0, 0), [9, 9, 9, 9]);
    assert_eq!(pixel(&buffer.frame, 2, 0, 1), [8, 8, 8, 8]);
    buffer.scroll_up(3);
    assert!(buffer.frame.chunks(4).all(|chunk| chunk == BLACK_RGBA));
    buffer.fill_rect(0, 0, 2, 3, &[1, 1, 1, 1]);
    buffer.clear();
    assert!(buffer.frame.chunks(4).all(|chunk| chunk == BLACK_RGBA));
}

#[test]
fn fonts_are_256_glyphs_of_8_to_32_lines() {
    assert_eq!(Font::from_bytes(&[0u8; 100]), Err(FontError::IllegalFontSize));
    assert_eq!(Font::from_bytes(&[0u8; 256 * 7]), Err(FontError::IllegalFontHeight));
    assert_eq!(Font::from_bytes(&[0u8; 256 * 33]), Err(FontError::IllegalFontHeight));
    assert_eq!(Font::from_bytes(&[]), Err(FontError::IllegalFontHeight));
    let font = font(16);
    assert_eq!((font.width(), font.height()), (8, 16));
    assert_eq!(font.as_slice().len(), 4096);
    assert_eq!(FontError::IllegalFontSize.to_string(), "Illegal font size");
}

#[test]
fn bitmasks_read_the_highest_bit_first() {
    let mut bytes = vec![0u8; 256 * 8];
    bytes[65 * 8] = 0b1000_0001;
    bytes[65 * 8 + 7] = 0b0100_0000;
    let font = Font::new(&bytes);
    let mask = font.to_bitmask(65);
    assert_eq!(mask.len(), 64);
    let set: Vec<usize> = (0..64).filter(|p| mask[*p]).collect();
    assert_eq!(set, vec![0, 7, 57]);
    let masks = font.to_bitmasks();
    assert_eq!(masks.len(), 256);
    assert_eq!(masks[65], mask);
    assert!(masks[255].iter().all(|bit| !bit));
    let fg = [1, 2, 3, 4];
    let bg = [5, 6, 7, 8];
    let pixels = font.to_bytes(65, &fg, &bg);
    assert_eq!(pixels.len(), 256);
    assert_eq!(&pixels[0..4], &fg);
    assert_eq!(&pixels[4..8], &bg);
    assert_eq!(&pixels[28..32], &fg);
    assert_eq!(&pixels[57 * 4..58 * 4], &fg);
    let colours = font.to_vec(65, &fg, &bg);
    assert_eq!(colours.len(), 64);
    assert_eq!((colours[0], colours[1], colours[57]), (fg, bg, fg));
}

#[test]
fn a_font_is_read_back_from_its_image() {
    let font = font(14);
    let image = font.to_image();
    assert_eq!(image.len(), 128 * 14 * 16 * 4);
    assert_eq!(Font::from_image(&image, 128, 14 * 16), Ok(font.duplicate()));
    assert_eq!(
        Font::from_image(&image, 127, 14 * 16),
        Err(FontError::IllegalFontSize)
    );
    assert_eq!(
        Font::from_image(&image[4..], 128, 14 * 16),
        Err(FontError::IllegalFontSize)
    );
    assert_eq!(
        Font::from_image(&vec![0u8; 128 * 17 * 4], 128, 17),
        Err(FontError::IllegalFontSize)
    );
    assert_eq!(
        Font::from_image(&vec![0u8; 128 * 16 * 4], 128, 16),
        Err(FontError::IllegalFontHeight)
    );
    assert_eq!(Font::from_image(&[], 128, 0), Err(FontError::IllegalFontHeight));
    let mut grey = vec![0u8; 128 * 128 * 4];
    for channel in 0..3 {
        grey[(0 * 128 + 8) * 4 + channel] = 128;
        grey[(1 * 128 + 15) * 4 + channel] = 255;
        grey[(2 * 128 + 9) * 4 + channel] = 127;
    }
    grey[(3 * 128 + 8) * 4] = 255;
    let font = Font::from_image(&grey, 128, 128).unwrap();
    assert_eq!(&font.as_slice()[8..12], &[0b1000_0000, 0b0000_0001, 0, 0]);
}

fn show(terminal: &mut Terminal, bytes: &[u8]) {
    let mut parser = AnsiParser::with_pacing(None);
    parser.input(bytes.to_vec());
    while let Some(event) = parser.next() {
        assert_eq!(terminal.apply(&event), Reaction::Continue);
    }
}

fn frame_of(terminal: &mut Terminal) -> Vec<u8> {
    let mut frame = vec![];
    terminal.next_frame(&mut frame);
    frame
}

#[test]
fn the_cursor_moves_within_the_screen() {
    let mut terminal = Terminal::new(10, 4, false, font(8));
    assert_eq!(terminal.get_dimensions(), (80, 32));
    assert_eq!(terminal.cursor_position(), (0, 0));
    show(&mut terminal, b"\x1b[3;5H");
    assert_eq!(terminal.cursor_position(), (4, 2));
    show(&mut terminal, b"\x1b[20C");
    assert_eq!(terminal.cursor_position(), (9, 2));
    show(&mut terminal, b"\x1b[20B\x1b[2D");
    assert_eq!(terminal.cursor_position(), (7, 3));
    show(&mut terminal, b"\x1b[s\x1b[9A\x1b[9D");
    assert_eq!(terminal.cursor_position(), (0, 0));
    show(&mut terminal, b"\t");
    assert_eq!(terminal.cursor_position(), (8, 0));
    show(&mut terminal, b"\x1b[u");
    assert_eq!(terminal.cursor_position(), (7, 3));
    show(&mut terminal, b"\x1b[H\x1b[u");
    assert_eq!(terminal.cursor_position(), (0, 0));
    show(&mut terminal, b"ab\r\n");
    assert_eq!(terminal.cursor_position(), (0, 1));
    show(&mut terminal, b"0123456789");
    assert_eq!(terminal.cursor_position(), (0, 2));
    terminal.cursor_down(usize::MAX);
    terminal.cursor_forward(usize::MAX);
    assert_eq!(terminal.cursor_position(), (9, 3));
}

#[test]
fn renditions_change_the_style() {
    let mut terminal = Terminal::new(4, 2, false, font(8));
    let plain = Style {
        fg: 7,
        bg: 0,
        blink: false,
        bold: false,
        true_colour_bg: None,
        true_colour_fg: None,
    };
    assert_eq!(terminal.style(), plain);
    show(&mut terminal, b"\x1b[1;5;31;44;99m");
    assert_eq!(
        terminal.style(),
        Style {
            fg: 1,
            bg: 4,
            blink: true,
            bold: true,
            ..plain
        }
    );
    show(&mut terminal, b"\x1b[1;10;20;30t\x1b[0;1;2;3t");
    assert_eq!(terminal.style().true_colour_fg, Some([10, 20, 30, 255]));
    assert_eq!(terminal.style().true_colour_bg, Some([1, 2, 3, 255]));
    show(&mut terminal, b"\x1b[32m");
    assert_eq!(terminal.style().true_colour_fg, None);
    assert_eq!(terminal.style().true_colour_bg, Some([1, 2, 3, 255]));
    show(&mut terminal, b"\x1b[m");
    assert_eq!(terminal.style().bg, 4);
    show(&mut terminal, b"\x1b[0m");
    assert_eq!(terminal.style(), plain);
    assert!(!terminal.wraps());
    show(&mut terminal, b"\x1b[7h");
    assert!(terminal.wraps());
    show(&mut terminal, b"\x1b[6l");
    assert!(terminal.wraps());
    show(&mut terminal, b"\x1b[7l");
    assert!(!terminal.wraps());
}

#[test]
fn glyphs_are_shown_in_the_colours_of_the_style() {
    let mut terminal = Terminal::new(3, 2, false, font(8));
    show(&mut terminal, b"\x1b[31;42m\xdb \x1b[1;5m\xdb");
    let red = ega_to_rgba(4);
    let green = ega_to_rgba(2);
    let bright_red = ega_to_rgba(60);
    let frame = frame_of(&mut terminal);
    assert_eq!(frame.len(), 24 * 16 * 4);
    assert_eq!(pixel(&frame, 24, 0, 0), red);
    assert_eq!(pixel(&frame, 24, 7, 7), red);
    assert_eq!(pixel(&frame, 24, 8, 0), green);
    assert_eq!(pixel(&frame, 24, 16, 3), bright_red);
    assert_eq!(pixel(&frame, 24, 0, 8), BLACK_RGBA);
    for _ in 0..11 {
        frame_of(&mut terminal);
    }
    let frame = frame_of(&mut terminal);
    assert_eq!(pixel(&frame, 24, 0, 0), red);
    assert_eq!(pixel(&frame, 24, 16, 3), green);
    let mut steady = Terminal::new(3, 2, true, font(8));
    show(&mut steady, b"\x1b[5;31;42m\xdb");
    for _ in 0..12 {
        frame_of(&mut steady);
    }
    assert_eq!(pixel(&frame_of(&mut steady), 24, 0, 0), red);
}

#[test]
fn the_cursor_is_drawn_while_it_is_switched_on() {
    let mut terminal = Terminal::new(2, 1, false, font(8));
    show(&mut terminal, b"\x1b[47m ");
    let white = ega_to_rgba(7);
    let frame = frame_of(&mut terminal);
    assert_eq!(pixel(&frame, 16, 0, 7), white);
    assert_eq!(pixel(&frame, 16, 8, 5), BLACK_RGBA);
    assert_eq!(pixel(&frame, 16, 8, 6), WHITE_RGBA);
    assert_eq!(pixel(&frame, 16, 15, 7), WHITE_RGBA);
    for _ in 0..5 {
        assert_eq!(pixel(&frame_of(&mut terminal), 16, 8, 6), WHITE_RGBA);
    }
    assert_eq!(pixel(&frame_of(&mut terminal), 16, 8, 6), BLACK_RGBA);
}

#[test]
fn the_screen_scrolls_with_the_glyph_below_the_last_row() {
    let mut terminal = Terminal::new(2, 2, false, font(8));
    show(&mut terminal, b"\x1b[41m \x1b[42m \x1b[43m \x1b[44m ");
    assert_eq!(terminal.cursor_position(), (0, 2));
    let frame = frame_of(&mut terminal);
    assert_eq!(pixel(&frame, 16, 0, 0), ega_to_rgba(4));
    assert_eq!(pixel(&frame, 16, 8, 8), ega_to_rgba(1));
    show(&mut terminal, b"\x1b[45m ");
    assert_eq!(terminal.cursor_position(), (1, 1));
    let frame = frame_of(&mut terminal);
    assert_eq!(pixel(&frame, 16, 0, 0), ega_to_rgba(20));
    assert_eq!(pixel(&frame, 16, 8, 0), ega_to_rgba(1));
    assert_eq!(pixel(&frame, 16, 0, 8), ega_to_rgba(5));
    assert_eq!(pixel(&frame, 16, 8, 8), BLACK_RGBA);
    show(&mut terminal, b" \n");
    assert_eq!(terminal.cursor_position(), (0, 2));
    let frame = frame_of(&mut terminal);
    assert_eq!(pixel(&frame, 16, 0, 0), ega_to_rgba(5));
    assert_eq!(pixel(&frame, 16, 8, 0), ega_to_rgba(5));
    assert_eq!(pixel(&frame, 16, 0, 8), BLACK_RGBA);
    show(&mut terminal, b"\x1b[7h\n");
    assert_eq!(terminal.cursor_position(), (0, 0));
    show(&mut terminal, b"\n\n");
    assert_eq!(terminal.cursor_position(), (0, 2));
}

#[test]
fn erasing_makes_cells_black() {
    let filled = |terminal: &mut Terminal| {
        show(terminal, b"\x1b[H\x1b[47m         \x1b[2;2H");
    };
    let cells = |terminal: &mut Terminal| -> Vec<bool> {
        let frame = frame_of(terminal);
        (0..9)
            .map(|cell| pixel(&frame, 24, (cell % 3) * 8, (cell / 3) * 8) != BLACK_RGBA)
            .collect()
    };
    let pattern = |text: &str| -> Vec<bool> { text.chars().map(|ch| ch == '#').collect() };
    let mut terminal = Terminal::new(3, 3, false, font(8));
    filled(&mut terminal);
    assert_eq!(terminal.cursor_position(), (1, 1));
    assert_eq!(cells(&mut terminal), pattern("#########"));
    show(&mut terminal, b"\x1b[K");
    assert_eq!(cells(&mut terminal), pattern("####..###"));
    filled(&mut terminal);
    show(&mut terminal, b"\x1b[1K");
    assert_eq!(cells(&mut terminal), pattern("###..####"));
    filled(&mut terminal);
    show(&mut terminal, b"\x1b[2K");
    assert_eq!(cells(&mut terminal), pattern("###...###"));
    filled(&mut terminal);
    show(&mut terminal, b"\x1b[3K\x1b[3J");
    assert_eq!(cells(&mut terminal), pattern("#########"));
    show(&mut terminal, b"\x1b[J");
    assert_eq!(cells(&mut terminal), pattern("####....."));
    filled(&mut terminal);
    show(&mut terminal, b"\x1b[1J");
    assert_eq!(cells(&mut terminal), pattern(".....####"));
    assert_eq!(terminal.cursor_position(), (1, 1));
    filled(&mut terminal);
    show(&mut terminal, b"\x1b[2J");
    assert_eq!(cells(&mut terminal), pattern("........."));
    assert_eq!(terminal.cursor_position(), (0, 0));
}

#[test]
fn the_reader_stops_for_frames_and_music() {
    let mut terminal = Terminal::new(2, 2, false, font(8));
    assert_eq!(terminal.apply(&Sequence::Update), Reaction::Frame);
    let mut parser = AnsiParser::with_pacing(None);
    parser.input(b"\x1b[MFC\x0e".to_vec());
    let music = parser.next().unwrap();
    assert_eq!(terminal.apply(&music), Reaction::Play);
    assert_eq!(
        terminal.apply(&Sequence::Unknown {
            bytes: vec![],
            terminator: b'z'
        }),
        Reaction::Continue
    );
    assert_eq!(terminal.cursor_position(), (0, 0));
}
