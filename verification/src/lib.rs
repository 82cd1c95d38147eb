//! Normalisation of sensor and decoded images into exact, crop-applied
//! sample buffers.
//!
//! The stage takes an image in sensor units, or one already decoded for
//! display, and produces a rectangle of samples in the range that the black
//! and white levels of each channel span. Every value is an exact quotient
//! of two integers; turning it into a float is left to the consumer.

pub mod buffer;
pub mod geometry;
pub mod gofloat;
pub mod layout;
pub mod levels;
pub mod source;

pub use buffer::{Encoding, OpBuffer};
pub use gofloat::{GoFloatError, OpGoFloat};
pub use layout::{Layout, Plan, Tap};
pub use levels::Ratio;
pub use source::{ImageSource, OtherImage, PipelineGlobals, PipelineSettings, RawImage};
