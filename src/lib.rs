//! A weather display daemon's logic: condition glyphs, the shutdown flag,
//! clock and temperature text, the render layout and the main-loop decisions.

pub mod icon;
pub mod shutdown;
pub mod text;
pub mod clock;
pub mod render;
pub mod cycle;

pub use icon::{get_icon, resolve, Glyph};
pub use shutdown::{is_termination_signal, RunState, ShutdownFlag, SIGINT, SIGTERM};
pub use text::{format_temperature, push_digits};
pub use clock::{format_updated, ClockTime};
pub use render::{layout_for, RenderLayout, TextDraw, WeatherSnapshot, BACKGROUND, BLANK, FOREGROUND};
pub use cycle::{classify, Action, ActionKind, Event, MainLoop, Phase, PollOutcome, IDLE_MS};
