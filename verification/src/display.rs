use embedded_graphics::framebuffer::Framebuffer;
use embedded_graphics::geometry::Point;
use embedded_graphics::mono_font::ascii::FONT_10X20;
use embedded_graphics::mono_font::MonoTextStyle;
use embedded_graphics::pixelcolor::raw::{LittleEndian, RawU1};
use embedded_graphics::pixelcolor::BinaryColor;
use embedded_graphics::text::{Alignment, LineHeight, Text, TextStyleBuilder};
use embedded_graphics::Drawable;
use vstd::prelude::*;
use vstd::string::StringSliceAdditionalSpecFns;
use vstd::utf8::encode_utf8;
use crate::fault::Fault;

verus! {

/// Width of the display in pixels.
pub const WIDTH: usize = 128;

/// Height of the display in pixels.
pub const HEIGHT: usize = 64;

/// Number of pixels of the display.
pub const PIXELS: usize = 8192;

/// Bytes that one row of a glyph mask takes: eight pixels to the byte.
pub const MASK_ROW_BYTES: usize = 16;

/// Longest text, in bytes, that a frame may carry.
pub const MAX_TEXT_BYTES: usize = 1024;

/// Farthest an anchor coordinate may lie from the origin.
pub const MAX_ANCHOR: i32 = 32767;

/// Largest line height, in percent of the font's own.
pub const MAX_LINE_HEIGHT_PERCENT: u32 = 1000;

/// Horizontal placement of each line of a frame relative to its anchor.
#[derive(Clone, Copy, Debug, PartialEq, Eq, Structural)]
pub enum TextAlignment {
    Left,
    Center,
    Right,
}

/// One unit of text to show, with where and how it is laid out.
///
/// The text may hold line breaks; each line is placed under the one before,
/// `line_height_percent` of the font's height further down.
#[derive(Clone, Debug, PartialEq, Eq)]
pub struct Frame {
    pub text: String,
    pub x: i32,
    pub y: i32,
    pub alignment: TextAlignment,
    pub line_height_percent: u32,
}

/// The glyph mask of a text laid out at an anchor: one bit per pixel of the
/// display, rows from the top, sixteen bytes to the row, the leftmost pixel
/// of each byte in its highest bit. A set bit is a pixel that a glyph covers.
pub uninterp spec fn rasterized(
    text: Seq<char>,
    x: int,
    y: int,
    alignment: TextAlignment,
    line_height_percent: int,
) -> Seq<u8>;

/// Whether a glyph mask covers the pixel at column `x`, row `y`.
/// Pixels off the display, and pixels that the mask is too short for, are not covered.
pub open spec fn mask_bit(mask: Seq<u8>, x: int, y: int) -> bool {
    &&& 0 <= x < WIDTH
    &&& 0 <= y < HEIGHT
    &&& y * MASK_ROW_BYTES + x / 8 < mask.len()
    &&& (mask[y * MASK_ROW_BYTES + x / 8] >> ((7 - x % 8) as u8)) & 1u8 == 1u8
}

/// The all-off image.
pub open spec fn blank() -> Seq<bool> {
    Seq::new(PIXELS as nat, |i: int| false)
}

/// An image with the pixels of a glyph mask switched on; the others stay.
pub open spec fn overlaid(pixels: Seq<bool>, mask: Seq<u8>) -> Seq<bool> {
    Seq::new(pixels.len(), |i: int| pixels[i] || mask_bit(mask, i % (WIDTH as int), i / (WIDTH as int)))
}

impl Frame {
    /// Whether the frame is within the limits that keep its layout inside
    /// machine arithmetic.
    pub open spec fn drawable(&self) -> bool {
        &&& encode_utf8(self.text@).len() <= MAX_TEXT_BYTES
        &&& -MAX_ANCHOR <= self.x <= MAX_ANCHOR
        &&& -MAX_ANCHOR <= self.y <= MAX_ANCHOR
        &&& self.line_height_percent <= MAX_LINE_HEIGHT_PERCENT
    }

    /// The glyph mask of this frame.
    pub open spec fn glyph_mask(&self) -> Seq<u8> {
        rasterized(
            self.text@,
            self.x as int,
            self.y as int,
            self.alignment,
            self.line_height_percent as int,
        )
    }

    pub fn new(
        text: String,
        x: i32,
        y: i32,
        alignment: TextAlignment,
        line_height_percent: u32,
    ) -> (f: Frame)
        ensures
            f.text == text,
            f.x == x,
            f.y == y,
            f.alignment == alignment,
            f.line_height_percent == line_height_percent,
    {
        Frame { text, x, y, alignment, line_height_percent }
    }

    /// A frame in the board's house style: centred on the anchor (64, 22),
    /// lines one and a half font heights apart.
    pub fn banner(text: String) -> (f: Frame)
        ensures
            f.text == text,
            f.x == 64,
            f.y == 22,
            f.alignment == TextAlignment::Center,
            f.line_height_percent == 150,
    {
        Frame { text, x: 64, y: 22, alignment: TextAlignment::Center, line_height_percent: 150 }
    }

    pub fn is_drawable(&self) -> (ok: bool)
        ensures
            ok == self.drawable(),
    {
        self.text.as_str().as_bytes().len() <= MAX_TEXT_BYTES && -MAX_ANCHOR <= self.x && self.x
            <= MAX_ANCHOR && -MAX_ANCHOR <= self.y && self.y <= MAX_ANCHOR
            && self.line_height_percent <= MAX_LINE_HEIGHT_PERCENT
    }
}

/// Lays a text out with `embedded_graphics::text::Text` in the 10x20 ASCII
/// font and draws it, pixels on, into a fresh 128x64 one-bit
/// `embedded_graphics::framebuffer::Framebuffer`, whose bytes it returns.
///
/// Not proved: that the bytes are the glyph mask of the arguments, which is
/// all the contract says. The limits keep the crate's `i32` and `u32` layout
/// arithmetic from overflowing.
#[verifier::external_body]
fn rasterize(text: &str, x: i32, y: i32, alignment: TextAlignment, line_height_percent: u32) -> (mask:
    Vec<u8>)
    requires
        text.spec_bytes().len() <= MAX_TEXT_BYTES,
        -MAX_ANCHOR <= x <= MAX_ANCHOR,
        -MAX_ANCHOR <= y <= MAX_ANCHOR,
        line_height_percent <= MAX_LINE_HEIGHT_PERCENT,
    ensures
        mask@ == rasterized(text@, x as int, y as int, alignment, line_height_percent as int),
{
    let side = match alignment {
        TextAlignment::Left => Alignment::Left,
        TextAlignment::Center => Alignment::Center,
        TextAlignment::Right => Alignment::Right,
    };
    let spacing = LineHeight::Percent(line_height_percent);
    let layout = TextStyleBuilder::new().alignment(side).line_height(spacing).build();
    let glyphs = MonoTextStyle::new(&FONT_10X20, BinaryColor::On);
    let mut target = Framebuffer::<BinaryColor, RawU1, LittleEndian, 128, 64, 1024>::new();
    let _ = Text::with_text_style(text, Point::new(x, y), glyphs, layout).draw(&mut target);
    target.data().to_vec()
}

/// Reads one pixel out of a glyph mask.
pub fn mask_covers(mask: &Vec<u8>, x: usize, y: usize) -> (on: bool)
    ensures
        on == mask_bit(mask@, x as int, y as int),
{
    if x < WIDTH && y < HEIGHT {
        let index: usize = y * MASK_ROW_BYTES + x / 8;
        if index < mask.len() {
            let shift: u8 = (7 - x % 8) as u8;
            (mask[index] >> shift) & 1u8 == 1u8
        } else {
            false
        }
    } else {
        false
    }
}

/// The pixel state that the renderer builds and the host transmits:
/// one `bool` per pixel, rows from the top, `true` for on.
#[derive(Clone, Debug, PartialEq, Eq)]
pub struct DisplayBuffer {
    pub pixels: Vec<bool>,
}

impl View for DisplayBuffer {
    type V = Seq<bool>;

    open spec fn view(&self) -> Seq<bool> {
        self.pixels@
    }
}

impl DisplayBuffer {
    /// The buffer holds exactly one entry for each pixel of the display.
    pub open spec fn wf(&self) -> bool {
        self@.len() == PIXELS
    }

    /// A buffer with every pixel off.
    pub fn new() -> (buffer: DisplayBuffer)
        ensures
            buffer.wf(),
            buffer@ == blank(),
    {
        let mut buffer = DisplayBuffer { pixels: Vec::new() };
        buffer.clear();
        buffer
    }

    /// Switches every pixel off, whatever the buffer held.
    pub fn clear(&mut self)
        ensures
            final(self).wf(),
            final(self)@ == blank(),
    {
        let mut pixels: Vec<bool> = Vec::new();
        let mut i: usize = 0;
        while i < PIXELS
            invariant
                i <= PIXELS,
                pixels@.len() == i,
                forall|j: int| 0 <= j < i ==> !pixels@[j],
            decreases PIXELS - i,
        {
            pixels.push(false);
            i = i + 1;
        }
        self.pixels = pixels;
        assert(self@ =~= blank());
    }

    /// The pixel at column `x`, row `y`; off where the buffer has none.
    pub fn pixel(&self, x: usize, y: usize) -> (on: bool)
        ensures
            on == (x < WIDTH && y < HEIGHT && y * WIDTH + x < self@.len() && self@[y * WIDTH + x]),
    {
        if x < WIDTH && y < HEIGHT {
            let index: usize = y * WIDTH + x;
            index < self.pixels.len() && self.pixels[index]
        } else {
            false
        }
    }

    /// Whether every pixel is off.
    pub fn is_blank(&self) -> (off: bool)
        ensures
            off == (forall|i: int| 0 <= i < self@.len() ==> !self@[i]),
            self.wf() ==> off == (self@ == blank()),
    {
        let mut i: usize = 0;
        while i < self.pixels.len()
            invariant
                i <= self@.len(),
                forall|j: int| 0 <= j < i ==> !self@[j],
            decreases self@.len() - i,
        {
            if self.pixels[i] {
                assert(self.wf() ==> blank()[i as int] != self@[i as int]);
                return false;
            }
            i = i + 1;
        }
        assert(self.wf() ==> self@ =~= blank());
        true
    }

    /// Switches on every pixel that the glyph mask covers and leaves the others.
    pub fn overlay(&mut self, mask: &Vec<u8>)
        ensures
            final(self)@ == overlaid(old(self)@, mask@),
    {
        let ghost before = self@;
        let mut i: usize = 0;
        while i < self.pixels.len()
            invariant
                i <= self@.len(),
                self@.len() == before.len(),
                forall|j: int| 0 <= j < i ==> self@[j] == overlaid(before, mask@)[j],
                forall|j: int| i <= j < self@.len() ==> self@[j] == before[j],
            decreases self@.len() - i,
        {
            if mask_covers(mask, i % WIDTH, i / WIDTH) {
                self.pixels.set(i, true);
            }
            i = i + 1;
        }
        assert(self@ =~= overlaid(before, mask@));
    }

    /// Draws a frame's text into the buffer: the pixels under its glyphs go
    /// on, no pixel goes off. A frame outside the layout limits is refused
    /// and leaves the buffer as it was.
    pub fn draw_frame(&mut self, frame: &Frame) -> (done: Result<(), Fault>)
        ensures
            frame.drawable() ==> done.is_ok() && final(self)@ == overlaid(
                old(self)@,
                frame.glyph_mask(),
            ),
            !frame.drawable() ==> done == Err::<(), Fault>(Fault::HardwareIOFailure) && final(self)@
                == old(self)@,
    {
        if frame.is_drawable() {
            let mask = rasterize(
                frame.text.as_str(),
                frame.x,
                frame.y,
                frame.alignment,
                frame.line_height_percent,
            );
            self.overlay(&mask);
            Ok(())
        } else {
            Err(Fault::HardwareIOFailure)
        }
    }

    /// A copy of the pixels, rows from the top.
    pub fn snapshot(&self) -> (pixels: Vec<bool>)
        ensures
            pixels@ == self@,
    {
        self.pixels.clone()
    }
}

/// Drawing onto a cleared buffer leaves exactly the pixels under the glyphs on.
pub proof fn lemma_overlay_on_blank(mask: Seq<u8>)
    ensures
        overlaid(blank(), mask).len() == PIXELS,
        forall|x: int, y: int|
            0 <= x < WIDTH && 0 <= y < HEIGHT ==> overlaid(blank(), mask)[y * WIDTH + x]
                == mask_bit(mask, x, y),
{
    assert forall|x: int, y: int| 0 <= x < WIDTH && 0 <= y < HEIGHT implies overlaid(
        blank(),
        mask,
    )[y * WIDTH + x] == mask_bit(mask, x, y) by {
        assert((y * WIDTH + x) % (WIDTH as int) == x);
        assert((y * WIDTH + x) / (WIDTH as int) == y);
    }
}

} // verus!
