//! Horizontally scrolling content for a 5×5 two-level display.
//!
//! The crate provides:
//! - a 5×5 two-level image type ([`image::BitImage`]);
//! - a renderer contract for anything that can report per-pixel brightness
//!   ([`render::Render`]);
//! - the scrolling engine: a cursor, a compositing rule, and an animation
//!   contract ([`scrolling`]);
//! - concrete scrolling sequences over static image lists
//!   ([`scrolling_statics`]) and over ascii byte strings resolved through a
//!   caller-supplied glyph table ([`scrolling_text`]).

pub mod image;
pub mod render;
pub mod scrolling;
pub mod scrolling_statics;
pub mod scrolling_text;
