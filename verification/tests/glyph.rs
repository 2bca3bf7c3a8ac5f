use nuimo::gatt::LED_FADE_FLAG;
use nuimo::{DisplayOptions, DisplayTransition, Glyph};

fn bit_count(bitmap: &[u8]) -> u32 {
    bitmap.iter().map(|b| b.count_ones()).sum()
}

fn pixel(bitmap: &[u8], row: usize, col: usize) -> bool {
    let k = row * 9 + col;
    bitmap[k / 8] & (1 << (k % 8)) != 0
}

#[test]
fn test_empty_glyph() {
    let g = Glyph::empty();
    let bitmap = g.to_bitmap();
    assert_eq!(bitmap, [0u8; 11]);
}

#[test]
fn test_single_pixel_top_left() {
    let g = Glyph::from_str("*");
    let bitmap = g.to_bitmap();
    assert_eq!(bitmap[0], 0b00000001); // bit 0 set
    assert_eq!(bitmap[1], 0);
}

#[test]
fn test_full_first_row() {
    let g = Glyph::from_str("*********");
    let bitmap = g.to_bitmap();
    // 9 bits: byte 0 = 0xFF (8 bits), byte 1 = 0x01 (1 bit)
    assert_eq!(bitmap[0], 0xFF);
    assert_eq!(bitmap[1], 0x01);
}

#[test]
fn test_filled_glyph() {
    let g = Glyph::filled();
    let bitmap = g.to_bitmap();
    // 81 bits set across 11 bytes
    let total_bits: u32 = bitmap.iter().map(|b| b.count_ones()).sum();
    assert_eq!(total_bits, 81);
}

#[test]
fn test_invert() {
    let g = Glyph::empty();
    let inv = g.invert();
    assert_eq!(inv, Glyph::filled());

    let g2 = Glyph::filled();
    let inv2 = g2.invert();
    assert_eq!(inv2, Glyph::empty());
}

#[test]
fn test_display_bytes_length() {
    let g = Glyph::empty();
    let bytes = g.to_display_bytes(&DisplayOptions::default());
    assert_eq!(bytes.len(), 13);
}

#[test]
fn test_display_bytes_brightness() {
    let g = Glyph::empty();
    // The library takes the LED level; a brightness of 0.5 is level 127.
    let opts = DisplayOptions {
        brightness: (0.5f64.clamp(0.0, 1.0) * 255.0) as u8,
        ..Default::default()
    };
    let bytes = g.to_display_bytes(&opts);
    assert_eq!(bytes[11], 127); // 0.5 * 255 ≈ 127
}

#[test]
fn test_display_bytes_timeout() {
    let g = Glyph::empty();
    let opts = DisplayOptions {
        timeout_ms: 5000,
        ..Default::default()
    };
    let bytes = g.to_display_bytes(&opts);
    assert_eq!(bytes[12], 50); // 5000 / 100
}

#[test]
fn test_display_bytes_fade_flag() {
    let g = Glyph::empty();

    let crossfade = g.to_display_bytes(&DisplayOptions {
        transition: DisplayTransition::CrossFade,
        ..Default::default()
    });
    assert_eq!(crossfade[10] & LED_FADE_FLAG, 0); // no flag = crossfade

    let immediate = g.to_display_bytes(&DisplayOptions {
        transition: DisplayTransition::Immediate,
        ..Default::default()
    });
    assert_ne!(immediate[10] & LED_FADE_FLAG, 0); // flag set = immediate
}

#[test]
fn test_play_glyph() {
    let g = Glyph::from_str(
        "    *    \n\
             **   \n\
             ***  \n\
             **** \n\
             *****\n\
             **** \n\
             ***  \n\
             **   \n\
             *    ",
    );
    let bitmap = g.to_bitmap();
    let total_bits: u32 = bitmap.iter().map(|b| b.count_ones()).sum();
    assert_eq!(total_bits, 25); // play triangle has 25 pixels
}

#[test]
fn from_str_places_pixels_by_line_and_column() {
    let g = Glyph::from_str("..*\n\n*........*\n");
    let b = g.to_bitmap();
    assert!(pixel(&b, 0, 2));
    assert!(!pixel(&b, 0, 0));
    assert!(pixel(&b, 2, 0));
    // the tenth character of a line is beyond the matrix
    assert_eq!(bit_count(&b), 2);
}

#[test]
fn from_str_ignores_rows_after_the_ninth() {
    let text = "*\n*\n*\n*\n*\n*\n*\n*\n*\n*\n*";
    let b = Glyph::from_str(text).to_bitmap();
    assert_eq!(bit_count(&b), 9);
    for row in 0..9 {
        assert!(pixel(&b, row, 0));
    }
}

#[test]
fn from_str_treats_crlf_like_lf() {
    assert_eq!(Glyph::from_str("**\r\n*"), Glyph::from_str("**\n*"));
    assert_eq!(Glyph::from_str("*\n"), Glyph::from_str("*"));
}

#[test]
fn invert_twice_is_identity() {
    let g = Glyph::from_str("* *\n * \n* *");
    assert_eq!(g.invert().invert(), g);
    assert_ne!(g.invert(), g);
}

#[test]
fn bitmap_packs_row_major_lsb_first() {
    // pixel (1, 0) is bit 9: byte 1, bit 1
    let b = Glyph::from_str("\n*").to_bitmap();
    assert_eq!(b[1], 0b10);
    // pixel (8, 8) is bit 80: byte 10, bit 0
    let b = Glyph::from_str("\n\n\n\n\n\n\n\n        *").to_bitmap();
    assert_eq!(b[10], 1);
    assert_eq!(bit_count(&b), 1);
}

#[test]
fn display_bytes_timeout_saturates() {
    let bytes = Glyph::filled().to_display_bytes(&DisplayOptions {
        brightness: 200,
        timeout_ms: 100_000,
        transition: DisplayTransition::Immediate,
    });
    assert_eq!(bytes[11], 200);
    assert_eq!(bytes[12], 255);
    assert_eq!(bytes[10], 0x01 | LED_FADE_FLAG);
    assert_eq!(&bytes[..10], &Glyph::filled().to_bitmap()[..10]);
}

#[test]
fn display_bytes_crossfade_is_bitmap() {
    let g = Glyph::from_str("*.*.*\n.*.*.");
    let bytes = g.to_display_bytes(&DisplayOptions {
        brightness: 1,
        timeout_ms: 250,
        transition: DisplayTransition::CrossFade,
    });
    assert_eq!(&bytes[..11], &g.to_bitmap()[..]);
    assert_eq!(bytes[12], 2);
}

#[test]
fn default_display_options() {
    let o = DisplayOptions::default();
    assert_eq!(o.brightness, 255);
    assert_eq!(o.timeout_ms, 2000);
    assert_eq!(o.transition, DisplayTransition::CrossFade);
}
