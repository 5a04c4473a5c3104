use vstd::prelude::*;

pub mod fixed;
pub mod trig;
pub mod mat;
pub mod camera;
pub mod archive;
pub mod model;
pub mod hdr;
pub mod renderer;
pub mod engine;
pub mod resources;

verus! {

/// A capability hook invoked by the engine loop each frame, in registration
/// order: `init` once before the loop starts, then `update` and `render` once
/// per iteration.
pub trait Plugin {
    fn init(&self);

    fn update(&self);

    fn render(&self);
}

} // verus!
