//! The frame renderer's decision core: the surface configuration and its
//! resize rules, the per-frame integration of input into the camera uniform,
//! the pass sequence of one frame, and the policy for surface-acquisition
//! failures.
//!
//! The GPU device, queue and swapchain live with the caller; everything
//! here is the bookkeeping that must stay coherent around them: offscreen
//! targets sized like the surface, a uniform consistent with the camera,
//! passes in their required order.

use vstd::prelude::*;

verus! {

use crate::camera::{
    Camera,
    CameraController,
    CameraUniform,
    Projection,
    camera_wf,
    controller_wf,
    projection_wf,
    spec_update_camera,
    spec_consumed,
    spec_aspect,
    DT_LIM,
};
use crate::fixed::{vec3_bounded, clamp_dim, spec_clamp_dim};
use crate::hdr::{HdrPipeline, hdr_wf};

/// Where a pass writes.
#[derive(Clone, Copy, Debug, PartialEq, Eq, Structural)]
pub enum PassTarget {
    /// The offscreen extended-range colour target.
    HdrTarget,
    /// The swapchain image being presented this frame.
    Swapchain,
}

/// What happens to the target's previous contents when a pass begins.
#[derive(Clone, Copy, Debug, PartialEq, Eq, Structural)]
pub enum LoadOp {
    /// Cleared to the background colour.
    ClearColor,
    /// Loaded, so the pass composites over what is already there.
    LoadPrevious,
}

/// One pass of the frame's command buffer.
#[derive(Clone, Copy, Debug, PartialEq, Eq, Structural)]
pub enum PassDesc {
    /// The scene geometry, depth-tested, into the offscreen target.
    Geometry { target: PassTarget, load: LoadOp, depth: bool },
    /// The full-screen tonemap of the offscreen target.
    Tonemap { target: PassTarget, load: LoadOp, vertices: u32 },
    /// The UI text composited directly onto the swapchain image.
    TextOverlay { target: PassTarget, load: LoadOp },
}

/// The swapchain configuration this renderer keeps for the surface.
#[derive(Clone, Copy, Debug, PartialEq, Eq, Structural)]
pub struct SurfaceConfig {
    pub width: u32,
    pub height: u32,
}

/// Pick the swapchain's presentable format from the capability list the
/// adapter reports, each entry reduced to whether it is an sRGB format: the
/// first sRGB entry wins, and when none is sRGB the first entry of the list
/// is taken as reported.
pub fn choose_surface_format(srgb: &Vec<bool>) -> (r: usize)
    requires
        srgb@.len() >= 1,
    ensures
        r < srgb@.len(),
        (exists|i: int| 0 <= i < srgb@.len() && #[trigger] srgb@[i]) ==> srgb@[r as int] && (forall|
            j: int,
        | 0 <= j < r ==> !(#[trigger] srgb@[j])),
        !(exists|i: int| 0 <= i < srgb@.len() && #[trigger] srgb@[i]) ==> r == 0,
{
    let n: usize = srgb.len();
    let mut i: usize = 0;
    while i < n
        invariant
            n == srgb@.len(),
            0 <= i <= n,
            forall|j: int| 0 <= j < i ==> !(#[trigger] srgb@[j]),
        decreases n - i,
    {
        if srgb[i] {
            return i;
        }
        i = i + 1;
    }
    0
}

/// How acquiring the swapchain image can fail, and what the frame loop must
/// do about it.
#[derive(Clone, Copy, Debug, PartialEq, Eq, Structural)]
pub enum SurfaceError {
    /// The acquisition timed out this frame.
    Timeout,
    /// The surface no longer matches the window; it must be reconfigured.
    Outdated,
    /// The surface was lost; it must be reconfigured.
    Lost,
    /// The device is out of memory.
    OutOfMemory,
}

/// The frame loop's reaction to a failed acquisition.
#[derive(Clone, Copy, Debug, PartialEq, Eq, Structural)]
pub enum FrameAction {
    /// Reconfigure the surface and try again next frame.
    Reconfigure,
    /// Skip this frame and try again next frame.
    SkipFrame,
    /// Give up: the failure is not recoverable.
    Fail,
}

/// The recovery policy for a failed swapchain acquisition: a transiently
/// outdated or lost surface is reconfigured and retried — never treated as
/// fatal; a timeout skips the frame; out-of-memory is fatal.
pub fn react_to_surface_error(e: &SurfaceError) -> (r: FrameAction)
    ensures
        (*e is Outdated || *e is Lost) ==> r == FrameAction::Reconfigure,
        *e is Timeout ==> r == FrameAction::SkipFrame,
        *e is OutOfMemory ==> r == FrameAction::Fail,
{
    match e {
        SurfaceError::Outdated => FrameAction::Reconfigure,
        SurfaceError::Lost => FrameAction::Reconfigure,
        SurfaceError::Timeout => FrameAction::SkipFrame,
        SurfaceError::OutOfMemory => FrameAction::Fail,
    }
}

/// How the per-frame update can fail.
#[derive(Clone, Copy, Debug, PartialEq, Eq, Structural)]
pub enum RendererError {
    /// The integrated camera pose left the range the uniform encoding
    /// covers; the pose is updated but the uniform is left as it was.
    UniformOutOfRange,
}

/// The frame renderer's state: the surface configuration, the camera rig,
/// the GPU-visible uniform derived from it, the HDR stage, and the depth
/// buffer's size.
#[derive(Clone, Copy, Debug, PartialEq, Eq, Structural)]
pub struct Renderer {
    pub config: SurfaceConfig,
    pub projection: Projection,
    pub camera: Camera,
    pub camera_controller: CameraController,
    pub camera_uniform: CameraUniform,
    pub hdr: HdrPipeline,
    pub depth_width: u32,
    pub depth_height: u32,
}

/// Everything size-dependent matches the surface: the offscreen HDR target
/// and the depth buffer are exactly the surface size, the HDR stage is
/// coherent, and the surface has a nonzero area.
pub open spec fn renderer_wf(r: Renderer) -> bool {
    &&& 1 <= r.config.width <= 0x4000_0000
    &&& 1 <= r.config.height <= 0x4000_0000
    &&& r.hdr.width == r.config.width
    &&& r.hdr.height == r.config.height
    &&& hdr_wf(r.hdr)
    &&& r.depth_width == r.config.width
    &&& r.depth_height == r.config.height
}

impl Renderer {
    /// A renderer for a surface of the reported size (clamped to at least
    /// one pixel), owning the camera rig handed in. The projection's aspect
    /// ratio is recomputed for the clamped size.
    pub fn new(
        width: u32,
        height: u32,
        camera: Camera,
        projection: Projection,
        camera_controller: CameraController,
    ) -> (r: Renderer)
        requires
            width <= 0x4000_0000,
            height <= 0x4000_0000,
        ensures
            renderer_wf(r),
            r.config.width == spec_clamp_dim(width as int),
            r.config.height == spec_clamp_dim(height as int),
            r.camera == camera,
            r.camera_controller == camera_controller,
            r.projection.aspect == spec_aspect(
                spec_clamp_dim(width as int),
                spec_clamp_dim(height as int),
            ),
            r.projection.fovy == projection.fovy,
            r.projection.znear == projection.znear,
            r.projection.zfar == projection.zfar,
    {
        let w: u32 = clamp_dim(width);
        let h: u32 = clamp_dim(height);
        let mut projection = projection;
        projection.resize(w, h);
        Renderer {
            config: SurfaceConfig { width: w, height: h },
            projection,
            camera,
            camera_controller,
            camera_uniform: CameraUniform::new(),
            hdr: HdrPipeline::new(w, h),
            depth_width: w,
            depth_height: h,
        }
    }

    /// Reconfigure for a reported surface size: the size is clamped to at
    /// least one pixel (a minimized window reports zero), the swapchain
    /// configuration takes the clamped size, the size-dependent offscreen
    /// targets are recreated at it, and the projection's aspect ratio is
    /// recomputed.
    pub fn resize(&mut self, width: u32, height: u32)
        requires
            renderer_wf(*old(self)),
            width <= 0x4000_0000,
            height <= 0x4000_0000,
            old(self).hdr.texture_generation < u64::MAX,
        ensures
            renderer_wf(*final(self)),
            final(self).config.width == spec_clamp_dim(width as int),
            final(self).config.height == spec_clamp_dim(height as int),
            final(self).projection.aspect == spec_aspect(
                spec_clamp_dim(width as int),
                spec_clamp_dim(height as int),
            ),
            final(self).projection.fovy == old(self).projection.fovy,
            final(self).projection.znear == old(self).projection.znear,
            final(self).projection.zfar == old(self).projection.zfar,
            final(self).hdr.texture_generation == old(self).hdr.texture_generation + 1,
            final(self).camera == old(self).camera,
            final(self).camera_controller == old(self).camera_controller,
            final(self).camera_uniform == old(self).camera_uniform,
    {
        let w: u32 = clamp_dim(width);
        let h: u32 = clamp_dim(height);
        self.config = SurfaceConfig { width: w, height: h };
        self.projection.resize(w, h);
        self.hdr.resize(w, h);
        self.depth_width = w;
        self.depth_height = h;
    }

    /// Integrate the accumulated input into the camera over `dt` fixed-point
    /// seconds and re-encode the camera uniform from the new pose. When the
    /// integrated position leaves the range the uniform encoding covers, the
    /// pose is still updated (and the intents consumed) but the uniform is
    /// left untouched and the error is reported.
    pub fn update(&mut self, dt: i64) -> (r: Result<(), RendererError>)
        requires
            renderer_wf(*old(self)),
            controller_wf(old(self).camera_controller),
            camera_wf(old(self).camera),
            projection_wf(old(self).projection),
            0 <= dt <= DT_LIM,
        ensures
            renderer_wf(*final(self)),
            final(self).camera == spec_update_camera(
                old(self).camera_controller,
                old(self).camera,
                dt as int,
            ),
            final(self).camera_controller == spec_consumed(old(self).camera_controller),
            controller_wf(final(self).camera_controller),
            final(self).config == old(self).config,
            final(self).hdr == old(self).hdr,
            final(self).projection == old(self).projection,
            match r {
                Result::Ok(()) => {
                    &&& vec3_bounded(final(self).camera.position, 0x2_0000_0000)
                    &&& final(self).camera_uniform.view_position == (crate::mat::Vec4Fx {
                        x: final(self).camera.position.x,
                        y: final(self).camera.position.y,
                        z: final(self).camera.position.z,
                        w: crate::fixed::FX_ONE,
                    })
                    &&& final(self).camera_uniform.view == final(self).camera.spec_calc_matrix()
                    &&& final(self).camera_uniform.view_proj == crate::mat::spec_mul4(
                        old(self).projection.spec_calc_matrix(),
                        final(self).camera.spec_calc_matrix(),
                    )
                    &&& final(self).camera_uniform.inv_proj == crate::mat::spec_perspective_inv(
                        old(self).projection.fovy as int,
                        old(self).projection.aspect as int,
                        old(self).projection.znear as int,
                        old(self).projection.zfar as int,
                    )
                    &&& final(self).camera_uniform.inv_view == crate::mat::spec_rigid_inverse(
                        final(self).camera.spec_calc_matrix(),
                    )
                },
                Result::Err(RendererError::UniformOutOfRange) => {
                    &&& !vec3_bounded(final(self).camera.position, 0x2_0000_0000)
                    &&& final(self).camera_uniform == old(self).camera_uniform
                },
            },
    {
        let mut camera: Camera = self.camera;
        self.camera_controller.update_camera(&mut camera, dt);
        self.camera = camera;
        let p: crate::fixed::Vec3Fx = self.camera.position;
        if -0x2_0000_0000 <= p.x && p.x <= 0x2_0000_0000 && -0x2_0000_0000 <= p.y && p.y
            <= 0x2_0000_0000 && -0x2_0000_0000 <= p.z && p.z <= 0x2_0000_0000 {
            self.camera_uniform.update_view_proj(&self.camera, &self.projection);
            Result::Ok(())
        } else {
            Result::Err(RendererError::UniformOutOfRange)
        }
    }

    /// Render one frame, as far as the decision goes: the pass sequence to
    /// record against the single swapchain image, strictly ordered. The
    /// depth-tested geometry pass clears and fills the offscreen HDR
    /// target, the tonemap pass composites it into the swapchain image, and
    /// the optional text overlay composites on top of that; only passes
    /// that load (never clear) follow the first swapchain pass.
    pub fn render(&self, with_text: bool) -> (r: Vec<PassDesc>)
        requires
            renderer_wf(*self),
        ensures
            r@.len() == (if with_text {
                3int
            } else {
                2int
            }),
            r@[0] == (PassDesc::Geometry {
                target: PassTarget::HdrTarget,
                load: LoadOp::ClearColor,
                depth: true,
            }),
            r@[1] == (PassDesc::Tonemap {
                target: PassTarget::Swapchain,
                load: LoadOp::LoadPrevious,
                vertices: 3u32,
            }),
            with_text ==> r@[2] == (PassDesc::TextOverlay {
                target: PassTarget::Swapchain,
                load: LoadOp::LoadPrevious,
            }),
    {
        let mut plan: Vec<PassDesc> = Vec::new();
        plan.push(
            PassDesc::Geometry {
                target: PassTarget::HdrTarget,
                load: LoadOp::ClearColor,
                depth: true,
            },
        );
        self.hdr.process(&mut plan, PassTarget::Swapchain);
        if with_text {
            plan.push(
                PassDesc::TextOverlay { target: PassTarget::Swapchain, load: LoadOp::LoadPrevious },
            );
        }
        plan
    }
}

} // verus!
