use embedded_graphics::framebuffer::Framebuffer;
use embedded_graphics::geometry::Point;
use embedded_graphics::image::GetPixel;
use embedded_graphics::mono_font::ascii::FONT_10X20;
use embedded_graphics::mono_font::MonoTextStyle;
use embedded_graphics::pixelcolor::raw::{LittleEndian, RawU1};
use embedded_graphics::pixelcolor::BinaryColor;
use embedded_graphics::text::{Alignment, LineHeight, Text, TextStyleBuilder};
use embedded_graphics::Drawable;
use indicator_display::display::{
    mask_covers, DisplayBuffer, Frame, TextAlignment, HEIGHT, MAX_ANCHOR, MAX_LINE_HEIGHT_PERCENT,
    MAX_TEXT_BYTES, PIXELS, WIDTH,
};
use indicator_display::fault::Fault;

/// The image of a centred text, drawn without the library and read pixel by pixel.
fn drawn_directly(text: &str, x: i32, y: i32, alignment: Alignment, percent: u32) -> Vec<bool> {
    let layout = TextStyleBuilder::new()
        .alignment(alignment)
        .line_height(LineHeight::Percent(percent))
        .build();
    let glyphs = MonoTextStyle::new(&FONT_10X20, BinaryColor::On);
    let mut target = Framebuffer::<BinaryColor, RawU1, LittleEndian, 128, 64, 1024>::new();
    Text::with_text_style(text, Point::new(x, y), glyphs, layout)
        .draw(&mut target)
        .unwrap();
    let mut pixels = Vec::new();
    for row in 0..64 {
        for column in 0..128 {
            pixels.push(target.pixel(Point::new(column, row)) == Some(BinaryColor::On));
        }
    }
    pixels
}

fn drawn(frame: &Frame) -> DisplayBuffer {
    let mut buffer = DisplayBuffer::new();
    assert_eq!(buffer.draw_frame(frame), Ok(()));
    buffer
}

fn lit(buffer: &DisplayBuffer) -> usize {
    buffer.snapshot().iter().filter(|on| **on).count()
}

#[test]
fn a_new_buffer_is_dark() {
    let buffer = DisplayBuffer::new();
    assert_eq!(buffer.snapshot(), vec![false; PIXELS]);
    assert!(buffer.is_blank());
    assert_eq!(WIDTH * HEIGHT, PIXELS);
}

#[test]
fn clear_switches_every_pixel_off() {
    let mut buffer = drawn(&Frame::banner("RUST".to_string()));
    assert!(!buffer.is_blank());
    buffer.clear();
    assert_eq!(buffer.snapshot(), vec![false; PIXELS]);
    assert!(buffer.is_blank());
}

#[test]
fn clear_repairs_a_buffer_of_the_wrong_size() {
    let mut buffer = DisplayBuffer { pixels: vec![true; 3] };
    assert!(!buffer.is_blank());
    buffer.clear();
    assert_eq!(buffer.snapshot(), vec![false; PIXELS]);
}

#[test]
fn banner_uses_the_house_style() {
    let frame = Frame::banner(":)".to_string());
    assert_eq!(
        frame,
        Frame::new(":)".to_string(), 64, 22, TextAlignment::Center, 150)
    );
    assert_eq!(frame.text, ":)");
    assert!(frame.is_drawable());
}

#[test]
fn drawn_frame_is_what_the_graphics_crate_draws() {
    for text in ["HELLO\nWORLD", "FROM", "RUST", ":)"] {
        let buffer = drawn(&Frame::banner(text.to_string()));
        assert_eq!(buffer.snapshot(), drawn_directly(text, 64, 22, Alignment::Center, 150));
        assert!(lit(&buffer) > 0);
    }
}

#[test]
fn alignment_and_line_height_reach_the_layout() {
    let left = Frame::new("AB\nCD".to_string(), 10, 20, TextAlignment::Left, 100);
    let right = Frame::new("AB\nCD".to_string(), 100, 20, TextAlignment::Right, 200);
    assert_eq!(drawn(&left).snapshot(), drawn_directly("AB\nCD", 10, 20, Alignment::Left, 100));
    assert_eq!(drawn(&right).snapshot(), drawn_directly("AB\nCD", 100, 20, Alignment::Right, 200));
    assert_ne!(drawn(&left).snapshot(), drawn(&right).snapshot());
}

#[test]
fn centred_text_lies_evenly_about_the_anchor() {
    // Four glyphs of ten pixels: columns 45 to 84 about the anchor column 64.
    let buffer = drawn(&Frame::banner("FROM".to_string()));
    let mut leftmost = WIDTH;
    let mut rightmost = 0;
    for y in 0..HEIGHT {
        for x in 0..WIDTH {
            if buffer.pixel(x, y) {
                leftmost = leftmost.min(x);
                rightmost = rightmost.max(x);
            }
        }
    }
    assert!(leftmost >= 45);
    assert!(rightmost <= 84);
    assert!(leftmost < 55);
    assert!(rightmost > 74);
}

#[test]
fn line_breaks_stack_centred_lines() {
    // The second line sits one and a half font heights, 30 pixels, lower.
    let both = drawn(&Frame::banner("HELLO\nWORLD".to_string()));
    let mut stacked = drawn(&Frame::banner("HELLO".to_string()));
    let lower = Frame::new("WORLD".to_string(), 64, 52, TextAlignment::Center, 150);
    assert_eq!(stacked.draw_frame(&lower), Ok(()));
    assert_eq!(both, stacked);
    assert!(lit(&both) > lit(&drawn(&Frame::banner("HELLO".to_string()))));
}

#[test]
fn empty_text_draws_nothing() {
    let buffer = drawn(&Frame::banner(String::new()));
    assert!(buffer.is_blank());
}

#[test]
fn drawing_never_switches_a_pixel_off() {
    let mut buffer = drawn(&Frame::banner("RUST".to_string()));
    let before = buffer.snapshot();
    assert_eq!(buffer.draw_frame(&Frame::banner("FROM".to_string())), Ok(()));
    let after = buffer.snapshot();
    let from = drawn(&Frame::banner("FROM".to_string())).snapshot();
    for i in 0..PIXELS {
        assert_eq!(after[i], before[i] || from[i]);
    }
}

#[test]
fn mask_bits_run_from_the_high_bit_row_by_row() {
    let mut mask = vec![0u8; 1024];
    mask[0] = 0x80;
    mask[16] = 0x01;
    mask[1023] = 0x02;
    assert!(mask_covers(&mask, 0, 0));
    assert!(!mask_covers(&mask, 1, 0));
    assert!(mask_covers(&mask, 7, 1));
    assert!(!mask_covers(&mask, 6, 1));
    assert!(mask_covers(&mask, 126, 63));
    assert!(!mask_covers(&mask, 127, 63));
    assert!(!mask_covers(&mask, 128, 0));
    assert!(!mask_covers(&mask, 0, 64));
}

#[test]
fn a_short_mask_covers_only_what_it_holds() {
    let mask = vec![0xffu8; 2];
    assert!(mask_covers(&mask, 15, 0));
    assert!(!mask_covers(&mask, 16, 0));
    let mut buffer = DisplayBuffer::new();
    buffer.overlay(&mask);
    assert_eq!(lit(&buffer), 16);
    assert!(buffer.pixel(0, 0));
    assert!(buffer.pixel(15, 0));
    assert!(!buffer.pixel(16, 0));
    assert!(!buffer.pixel(0, 1));
}

#[test]
fn overlay_sets_the_covered_pixels() {
    let mut mask = vec![0u8; 1024];
    mask[16 * 5 + 2] = 0b0100_0000;
    let mut buffer = DisplayBuffer::new();
    buffer.overlay(&mask);
    assert_eq!(lit(&buffer), 1);
    assert!(buffer.pixel(17, 5));
    assert!(buffer.snapshot()[5 * 128 + 17]);
}

#[test]
fn pixels_off_the_display_read_as_off() {
    let buffer = DisplayBuffer { pixels: vec![true; PIXELS] };
    assert!(buffer.pixel(127, 63));
    assert!(!buffer.pixel(128, 0));
    assert!(!buffer.pixel(0, 64));
    let short = DisplayBuffer { pixels: vec![true; 128] };
    assert!(short.pixel(127, 0));
    assert!(!short.pixel(0, 1));
}

#[test]
fn frames_within_the_limits_are_drawable() {
    let edge = Frame::new(
        "x".repeat(MAX_TEXT_BYTES),
        MAX_ANCHOR,
        -MAX_ANCHOR,
        TextAlignment::Right,
        MAX_LINE_HEIGHT_PERCENT,
    );
    assert!(edge.is_drawable());
    let mut buffer = DisplayBuffer::new();
    assert_eq!(buffer.draw_frame(&edge), Ok(()));
    let many_lines = Frame::new("\n".repeat(MAX_TEXT_BYTES), 0, MAX_ANCHOR, TextAlignment::Center, 1000);
    assert_eq!(buffer.draw_frame(&many_lines), Ok(()));
}

#[test]
fn frames_beyond_the_limits_are_refused() {
    let long = Frame::banner("x".repeat(MAX_TEXT_BYTES + 1));
    let far = Frame::new("A".to_string(), MAX_ANCHOR + 1, 0, TextAlignment::Left, 100);
    let low = Frame::new("A".to_string(), 0, -MAX_ANCHOR - 1, TextAlignment::Left, 100);
    let tall = Frame::new("A".to_string(), 0, 0, TextAlignment::Left, MAX_LINE_HEIGHT_PERCENT + 1);
    for frame in [long, far, low, tall] {
        assert!(!frame.is_drawable());
        let mut buffer = drawn(&Frame::banner("RUST".to_string()));
        let before = buffer.snapshot();
        assert_eq!(buffer.draw_frame(&frame), Err(Fault::HardwareIOFailure));
        assert_eq!(buffer.snapshot(), before);
    }
}

#[test]
fn text_length_is_counted_in_bytes() {
    // 342 three-byte characters are 1026 bytes.
    let wide = Frame::banner("\u{20ac}".repeat(342));
    assert!(!wide.is_drawable());
    let fits = Frame::banner("\u{20ac}".repeat(341));
    assert!(fits.is_drawable());
}

#[test]
fn characters_outside_the_font_are_drawn_as_its_stand_in() {
    let text = "\u{e9}\u{20ac}\tA\r\nB";
    let frame = Frame::new(text.to_string(), 64, 22, TextAlignment::Center, 150);
    assert!(frame.is_drawable());
    let buffer = drawn(&frame);
    assert_eq!(buffer.snapshot(), drawn_directly(text, 64, 22, Alignment::Center, 150));
    assert!(!buffer.is_blank());
}
