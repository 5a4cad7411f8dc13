pub mod num_traits;
pub mod vector;
pub mod matrix;
pub mod laws;
pub mod color;
pub mod render;
pub mod shape;
pub mod camera;
pub mod scene;
pub mod engine;

use vstd::prelude::*;

verus! {

} // verus!
