use matrixled::bus::{DmaStatus, Plan};
use matrixled::display_led::{DisplayLed, GLYPH_WIDTH, TEXT_CAPACITY};
use matrixled::dma_stream::DmaStream;
use matrixled::error::Error;

const IDLE: DmaStatus = DmaStatus { stream_enabled: false, transfer_complete: false };
const COMPLETE: DmaStatus = DmaStatus { stream_enabled: false, transfer_complete: true };

const GLYPH_A: [u8; 8] = [0x0F, 0x09, 0x09, 0x0F, 0x09, 0x09, 0x09, 0x00];
const GLYPH_B: [u8; 8] = [0x0E, 0x09, 0x09, 0x0E, 0x09, 0x09, 0x0E, 0x00];

/// A font in which every glyph is a solid block of the low nibble of its
/// code, but for the letters A and B.
fn font() -> [[u8; 8]; 256] {
    let mut table = [[0u8; 8]; 256];
    for (code, glyph) in table.iter_mut().enumerate() {
        *glyph = [code as u8 & 0x0F; 8];
    }
    table[b'A' as usize] = GLYPH_A;
    table[b'B' as usize] = GLYPH_B;
    table
}

fn text(display: &DisplayLed) -> Vec<u8> {
    (0..display.buff_len()).map(|i| display.char_at(i)).collect()
}

fn rows(display: &DisplayLed) -> [u32; 8] {
    let mut out = [0u32; 8];
    for y in 0..8 {
        out[y] = display.row(y);
    }
    out
}

#[test]
fn new_display_is_blank_and_empty() {
    let display = DisplayLed::new();
    assert_eq!(display.buff_len(), 0);
    assert_eq!(rows(&display), [0u32; 8]);
    assert_eq!(TEXT_CAPACITY, 50);
    assert_eq!(GLYPH_WIDTH, 4);
}

#[test]
fn write_str_gathers_printable_characters() {
    let mut display = DisplayLed::new();
    let font = font();
    assert!(!display.write_str("AB", &font));
    assert!(!display.write_str("", &font));
    assert!(!display.write_str("c:1", &font));
    assert_eq!(text(&display), b"ABc:1".to_vec());
    // Nothing is drawn before the line ends.
    assert_eq!(rows(&display), [0u32; 8]);
}

#[test]
fn write_str_shows_the_line_at_a_newline() {
    let mut display = DisplayLed::new();
    let font = font();
    assert!(display.write_str("AB\n", &font));
    assert_eq!(
        rows(&display),
        [
            0xFE00_0000,
            0x9900_0000,
            0x9900_0000,
            0xFE00_0000,
            0x9900_0000,
            0x9900_0000,
            0x9E00_0000,
            0x0000_0000,
        ]
    );
    assert_eq!(display.buff_len(), 0);
}

#[test]
fn write_str_shows_what_was_gathered_before() {
    let mut display = DisplayLed::new();
    let font = font();
    assert!(!display.write_str("12", &font));
    assert!(!display.write_str("34", &font));
    assert_eq!(rows(&display), [0u32; 8]);
    assert!(display.write_str("5678\n", &font));
    assert_eq!(rows(&display), [0x1234_5678u32; 8]);
    assert_eq!(display.buff_len(), 0);
}

#[test]
fn write_str_of_a_bare_newline_shows_a_blank_line() {
    let mut display = DisplayLed::new();
    let font = font();
    assert!(display.write_str("1\n", &font));
    assert_eq!(rows(&display), [0x1000_0000u32; 8]);
    assert!(display.write_str("\n", &font));
    assert_eq!(rows(&display), [0u32; 8]);
    assert_eq!(display.buff_len(), 0);
}

#[test]
fn write_str_shows_what_follows_the_newline_too() {
    let mut display = DisplayLed::new();
    let font = font();
    assert!(display.write_str("12\n34", &font));
    assert_eq!(rows(&display), [0x1234_0000u32; 8]);
    assert_eq!(display.buff_len(), 0);
}

#[test]
fn write_str_drops_control_characters() {
    let mut display = DisplayLed::new();
    let font = font();
    assert!(!display.write_str("a\tb\rc\u{7f}d\u{0}e\u{1f}f", &font));
    assert_eq!(text(&display), b"abcdef".to_vec());
    // A space is the first character that is kept.
    assert!(!display.write_str(" ~", &font));
    assert_eq!(text(&display), b"abcdef ~".to_vec());
}

#[test]
fn write_str_takes_the_low_byte_of_a_wide_character() {
    let mut display = DisplayLed::new();
    let font = font();
    assert!(!display.write_str("\u{3042}\u{e9}\u{80}", &font));
    assert_eq!(text(&display), vec![0x42, 0xE9, 0x80]);
    // A wide character whose low byte is that of a control character stays.
    assert!(!display.write_str("\u{010a}", &font));
    assert_eq!(text(&display), vec![0x42, 0xE9, 0x80, 0x0A]);
}

#[test]
fn write_str_drops_what_does_not_fit() {
    let mut display = DisplayLed::new();
    let font = font();
    let long: String = (0..60).map(|i| (b'A' + (i % 26) as u8) as char).collect();
    assert!(!display.write_str(&long, &font));
    assert_eq!(display.buff_len(), 50);
    assert_eq!(text(&display), long.as_bytes()[..50].to_vec());
    assert!(!display.write_str("more", &font));
    assert_eq!(text(&display), long.as_bytes()[..50].to_vec());
}

#[test]
fn write_str_fills_up_to_capacity_across_calls() {
    let mut display = DisplayLed::new();
    let font = font();
    let first = "x".repeat(48);
    assert!(!display.write_str(&first, &font));
    assert!(!display.write_str("abcd", &font));
    let mut expected = first.into_bytes();
    expected.extend_from_slice(b"ab");
    assert_eq!(text(&display), expected);
}

#[test]
fn line_is_empty_after_an_overfull_line_was_shown() {
    let mut display = DisplayLed::new();
    let font = font();
    assert!(!display.write_str(&"1".repeat(70), &font));
    assert_eq!(display.buff_len(), 50);
    assert!(display.write_str("\n", &font));
    assert_eq!(display.buff_len(), 0);
    assert_eq!(rows(&display), [0x1111_1111u32; 8]);
    // What did not fit is not kept for the next line.
    assert!(display.write_str("2\n", &font));
    assert_eq!(rows(&display), [0x2000_0000u32; 8]);
}

#[test]
fn flush_draws_glyphs_side_by_side() {
    let mut display = DisplayLed::new();
    let font = font();
    assert!(!display.write_str("BA", &font));
    display.flush(&font);
    assert_eq!(
        rows(&display),
        [
            0xEF00_0000,
            0x9900_0000,
            0x9900_0000,
            0xEF00_0000,
            0x9900_0000,
            0x9900_0000,
            0xE900_0000,
            0x0000_0000,
        ]
    );
    assert_eq!(display.buff_len(), 0);
}

#[test]
fn flush_uses_the_low_four_bits_of_a_glyph_row() {
    let mut display = DisplayLed::new();
    let mut font = font();
    font[b'x' as usize] = [0xF1; 8];
    font[b'y' as usize] = [0xA2; 8];
    assert!(!display.write_str("xy", &font));
    display.flush(&font);
    assert_eq!(rows(&display), [0x1200_0000u32; 8]);
}

#[test]
fn flush_replaces_the_previous_frame() {
    let mut display = DisplayLed::new();
    let font = font();
    assert!(!display.write_str("roooooom", &font));
    display.flush(&font);
    assert_eq!(rows(&display), [0x2FFF_FFFDu32; 8]);
    assert!(!display.write_str("1", &font));
    display.flush(&font);
    assert_eq!(rows(&display), [0x1000_0000u32; 8]);
    display.flush(&font);
    assert_eq!(rows(&display), [0u32; 8]);
}

#[test]
fn flush_clips_glyphs_beyond_the_right_edge() {
    let mut display = DisplayLed::new();
    let font = font();
    assert!(!display.write_str("123456789:;<=>?", &font));
    assert_eq!(display.buff_len(), 15);
    display.flush(&font);
    assert_eq!(rows(&display), [0x1234_5678u32; 8]);
}

#[test]
fn clear_blanks_the_frame_and_keeps_the_line() {
    let mut display = DisplayLed::new();
    let font = font();
    assert!(display.write_str("?\n", &font));
    assert_eq!(rows(&display), [0xF000_0000u32; 8]);
    assert!(!display.write_str("hi", &font));
    display.clear();
    assert_eq!(rows(&display), [0u32; 8]);
    assert_eq!(text(&display), b"hi".to_vec());
}

#[test]
fn display_flash_retries_until_accepted() {
    let mut display = DisplayLed::new();
    let font = font();
    let mut stream = DmaStream::new();
    assert!(display.write_str("?\n", &font));
    assert_eq!(display.flash_led(&mut stream, &IDLE), Ok(Plan::Start));
    assert_eq!(stream.get_buff(0), Some(&[0x01F0, 0x0100, 0x0100, 0x0100]));

    assert!(display.write_str("0?\n", &font));
    let mut refused = 0;
    let plan = loop {
        match display.flash_led(&mut stream, &IDLE) {
            Ok(plan) => break plan,
            Err(e) => {
                assert_eq!(e, Error::Busy);
                refused += 1;
                stream.dma2_stream3(&COMPLETE);
            }
        }
    };
    assert_eq!(plan, Plan::Start);
    assert_eq!(refused, 8);
    assert_eq!(stream.get_buff(0), Some(&[0x010F, 0x0100, 0x0100, 0x0100]));
}
