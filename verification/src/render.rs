//! Rendering: the pixel buffer, its rasterizer, and decoded images.

pub mod buffer;
pub mod image;

use vstd::prelude::*;

verus! {

} // verus!
