//! A small shape library: a `Drawable` capability over shape types, a
//! `Point` primitive, a `Color` attribute, and an explicit output sink so
//! that everything a shape emits can be captured and checked.

use vstd::prelude::*;

mod color;
mod shape;
mod sink;

pub use color::Color;
pub use color::lemma_color_exhaustive;
pub use shape::Drawable;
pub use shape::Point;
pub use shape::lemma_draw_idempotent;
pub use shape::point_rendering;
pub use sink::Sink;
pub use sink::newline;

verus! {

/// The greeting the program emits on startup, before any shape output.
pub fn greeting() -> (r: String)
    ensures
        r@ == "Hello, Rust!"@,
{
    String::from_str("Hello, Rust!")
}

} // verus!
