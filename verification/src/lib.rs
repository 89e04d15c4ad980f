//! A terminal progress-indicator engine with machine-checked contracts.
//!
//! The crate keeps the timing and rate state of each indicator, renders it
//! into a display line, and coordinates several indicators so that each is
//! drawn on a row of its own.
//!
//! It never touches a terminal, a clock or a channel. Every operation is a
//! transition on plain values: it takes the clock reading where it needs one
//! and hands back the terminal operations or coordinator messages that its
//! caller has to carry out. Clock readings and durations are whole
//! milliseconds of a monotonic clock; rates are whole thousandths of an
//! iteration per second; fractions are kept as count and total.
//!
//! * [`styles`]: the glyphs a bar is drawn with.
//! * [`internal`]: counters, timer, rate, width and row of one indicator.
//! * [`render`]: from indicator state to the display line.
//! * [`extension`]: the operations of an indicator and what they mean.
//! * [`std_bar`]: the plain indicator.
//! * [`multi_bar`]: the coordinator that gives out rows and applies messages.
//! * [`term`]: terminal operations, their encoding, and a model of the screen.
//! * [`fmt_data`]: numbers, clock times and rates as text.

pub mod extension;
pub mod fmt_data;
pub mod internal;
pub mod multi_bar;
pub mod render;
pub mod std_bar;
pub mod styles;
pub mod term;

pub use extension::{BarExt, InputError, Message, Redraw, Reply};
pub use internal::BarInternal;
pub use multi_bar::{MultiBar, Phase, RegisterError};
pub use std_bar::Bar;
pub use styles::Ramp;
pub use term::TermOp;
