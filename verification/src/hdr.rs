//! The HDR post-process stage: one offscreen extended-range colour target
//! at the surface size, and the tonemap pass that reads it back into the
//! presentable surface format.
//!
//! The GPU objects themselves live with the caller; this stage tracks what
//! must stay coherent about them: the target's size always matches the
//! surface, and the bind group always references the current texture — on a
//! resize the texture is recreated (never mutated), so the bind group is
//! recreated with it. Generation counters stand for the identity of the
//! created objects.

use vstd::prelude::*;

verus! {

use crate::fixed::{clamp_dim, spec_clamp_dim};
use crate::renderer::{PassDesc, PassTarget, LoadOp};

/// The texture formats this engine chooses between.
#[derive(Clone, Copy, Debug, PartialEq, Eq, Structural)]
pub enum TextureFormat {
    /// 16-bit float per channel: the extended-dynamic-range offscreen
    /// target.
    Rgba16Float,
    /// The surface's presentable sRGB format.
    SurfaceSrgb,
}

/// The HDR tonemap stage.
#[derive(Clone, Copy, Debug, PartialEq, Eq, Structural)]
pub struct HdrPipeline {
    pub width: u32,
    pub height: u32,
    /// Which creation of the offscreen texture is current.
    pub texture_generation: u64,
    /// Which creation of the texture the bind group references.
    pub bind_group_generation: u64,
}

/// The stage is coherent: the bind group references the current texture and
/// the target has a nonzero area.
pub open spec fn hdr_wf(h: HdrPipeline) -> bool {
    &&& h.bind_group_generation == h.texture_generation
    &&& h.width >= 1
    &&& h.height >= 1
}

impl HdrPipeline {
    /// A fresh stage with its offscreen target at the given surface size; a
    /// zero-area report is clamped to one pixel.
    pub fn new(width: u32, height: u32) -> (r: HdrPipeline)
        ensures
            r.width == spec_clamp_dim(width as int),
            r.height == spec_clamp_dim(height as int),
            r.texture_generation == 0,
            r.bind_group_generation == 0,
            hdr_wf(r),
    {
        HdrPipeline {
            width: clamp_dim(width),
            height: clamp_dim(height),
            texture_generation: 0,
            bind_group_generation: 0,
        }
    }

    /// Recreate the offscreen target at a new surface size, clamping a
    /// zero-area report to one pixel; the dependent bind group is recreated
    /// against the new texture, never left pointing at the old one. A valid
    /// resize after a degenerate one restores the requested size exactly.
    pub fn resize(&mut self, width: u32, height: u32)
        requires
            hdr_wf(*old(self)),
            old(self).texture_generation < u64::MAX,
        ensures
            final(self).width == spec_clamp_dim(width as int),
            final(self).height == spec_clamp_dim(height as int),
            final(self).texture_generation == old(self).texture_generation + 1,
            final(self).bind_group_generation == final(self).texture_generation,
            hdr_wf(*final(self)),
    {
        let g: u64 = self.texture_generation + 1;
        self.width = clamp_dim(width);
        self.height = clamp_dim(height);
        self.texture_generation = g;
        self.bind_group_generation = g;
    }

    /// The format of the offscreen target.
    pub fn format(&self) -> (r: TextureFormat)
        ensures
            r == TextureFormat::Rgba16Float,
    {
        TextureFormat::Rgba16Float
    }

    /// Record the tonemap pass: a single draw of one full-screen triangle
    /// (three vertices, no vertex buffer) into the given target, over the
    /// prior contents of that target — never a clear, so it composites with
    /// whatever the earlier passes produced.
    pub fn process(&self, plan: &mut Vec<PassDesc>, output: PassTarget)
        requires
            hdr_wf(*self),
        ensures
            final(plan)@ == old(plan)@.push(
                PassDesc::Tonemap { target: output, load: LoadOp::LoadPrevious, vertices: 3u32 },
            ),
    {
        plan.push(PassDesc::Tonemap { target: output, load: LoadOp::LoadPrevious, vertices: 3 });
    }
}

/// How many 16-by-16 compute workgroups cover one face of a cubemap of the
/// given edge length: enough that every texel is reached.
pub fn equirect_workgroups(dst_size: u32) -> (r: u32)
    requires
        dst_size <= 0xFFFF_0000,
    ensures
        r == (dst_size + 15) / 16,
        16 * r >= dst_size,
{
    (dst_size + 15) / 16
}

} // verus!
