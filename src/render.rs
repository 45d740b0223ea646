use vstd::prelude::*;
use crate::clock::{format_updated, updated_text, ClockTime};
use crate::icon::{get_icon, glyph_for};
use crate::text::{format_temperature, temperature_text};

verus! {

/// Screen background while weather is shown, as 0xRRGGBB.
pub const BACKGROUND: u32 = 0xe0d0ff;

/// Text color while weather is shown, as 0xRRGGBB.
pub const FOREGROUND: u32 = 0x000000;

/// The color the screen is cleared to at startup and at shutdown.
pub const BLANK: u32 = 0x000000;

/// One successful weather reading.
#[derive(Clone, Debug)]
pub struct WeatherSnapshot {
    /// The provider's condition code, such as `10d`.
    pub code: String,
    /// The temperature in whole degrees, truncated toward zero.
    pub temperature: i8,
    /// The provider's description, such as `light rain`.
    pub description: String,
}

/// One text drawn at a position on the screen, with a font size in pixels.
#[derive(Clone, Debug)]
pub struct TextDraw {
    pub text: String,
    pub x: i16,
    pub y: i16,
    pub size: u16,
}

/// A full frame: clear to `background`, then draw each of `draws` in order
/// in `foreground`, then present.
#[derive(Clone, Debug)]
pub struct RenderLayout {
    pub background: u32,
    pub foreground: u32,
    pub draws: Vec<TextDraw>,
}

pub open spec fn draw_is(d: TextDraw, text: Seq<char>, x: int, y: int, size: int) -> bool {
    d.text@ == text && d.x == x && d.y == y && d.size == size
}

/// The frame for a reading drawn at time `t`: the glyph large at the top
/// left, the temperature at the top right, the description at the bottom
/// left and the update time, smallest, at the middle right.
pub open spec fn is_layout_for(r: RenderLayout, s: WeatherSnapshot, t: ClockTime) -> bool {
    &&& r.background == BACKGROUND
    &&& r.foreground == FOREGROUND
    &&& r.draws@.len() == 4
    &&& draw_is(r.draws@[0], glyph_for(s.code@).text(), 30, -5, 128)
    &&& draw_is(r.draws@[1], temperature_text(s.temperature as int), 128, 15, 80)
    &&& draw_is(r.draws@[2], s.description@, 30, 105, 48)
    &&& draw_is(r.draws@[3], updated_text(t), 128, 85, 20)
}

/// Lays out the frame for a reading, stamped with the time of day `t`.
pub fn layout_for(s: &WeatherSnapshot, t: &ClockTime) -> (r: RenderLayout)
    requires
        t.wf(),
    ensures
        is_layout_for(r, *s, *t),
{
    let icon = get_icon(&s.code);
    let temp = format_temperature(s.temperature);
    let desc = s.description.clone();
    let time = format_updated(t);
    let mut draws: Vec<TextDraw> = Vec::new();
    draws.push(TextDraw { text: icon, x: 30, y: -5, size: 128 });
    draws.push(TextDraw { text: temp, x: 128, y: 15, size: 80 });
    draws.push(TextDraw { text: desc, x: 30, y: 105, size: 48 });
    draws.push(TextDraw { text: time, x: 128, y: 85, size: 20 });
    RenderLayout { background: BACKGROUND, foreground: FOREGROUND, draws }
}

} // verus!
