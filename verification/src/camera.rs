//! The first-person camera rig: pose state, projection parameters, and the
//! controller that accumulates input intents and integrates them into the
//! pose once per frame.
//!
//! Angles are fixed-point radians and distances fixed-point units (see
//! `fixed`). Intent accumulation is edge-triggered: every accumulated delta
//! is consumed and reset to zero by `update_camera`.

use vstd::prelude::*;

verus! {

use crate::fixed::{
    FX_ONE,
    FX_HALF,
    clamp_dim,
    spec_clamp_dim,
    Vec3Fx,
    vec3_bounded,
    fx_mul,
    fx_clamp,
    spec_fx_mul,
    spec_clamp,
    spec_v3_plus,
    lemma_mul_bound,
    lemma_fx_mul_bound,
    lemma_fx_mul_zero,
    lemma_normalize_bounded,
    lemma_tdiv_shrinks,
};
use crate::trig::{
    PI_FX,
    sin_fx,
    cos_fx,
    wrap_angle,
    spec_sin_fx,
    spec_cos_fx,
    spec_wrap_angle,
};
use vstd::arithmetic::div_mod::lemma_small_mod;

/// The pitch bound that keeps the camera just short of straight up or
/// straight down: a quarter turn minus a small guard (about 0.0001 radians).
pub const SAFE_PITCH_FX: i64 = 102937;

/// Largest position component magnitude the rig integrates from.
pub const POS_LIM: i64 = 0x40_0000_0000;

/// Largest movement speed magnitude, in fixed-point units per second.
pub const SPEED_LIM: i64 = 0x100_0000;

/// Largest mouse sensitivity magnitude.
pub const SENS_LIM: i64 = 0x100_0000;

/// Largest pointer-motion delta magnitude accepted per event.
pub const MOUSE_LIM: i64 = 0x400_0000;

/// Largest normalized scroll delta magnitude accepted per event.
pub const SCROLL_LIM: i64 = 0x100_0000;

/// Largest frame time accepted, in fixed-point seconds.
pub const DT_LIM: i64 = 0x10_0000;

/// Largest yaw magnitude a stored pose may carry. Construction stores the
/// yaw exactly as given; only integration wraps it, so the encoding must
/// leave room for an accumulated raw angle plus one step's rotation.
pub const YAW_LIM: i64 = 0x4000_0000_0000;

/// First-person camera pose: a position and a yaw/pitch orientation.
#[derive(Clone, Copy, Debug, PartialEq, Eq, Structural)]
pub struct Camera {
    pub position: Vec3Fx,
    pub yaw: i64,
    pub pitch: i64,
}

/// The pose is within the ranges the integrator works from: position
/// components bounded, yaw within the angle encoding, pitch within a half
/// turn.
pub open spec fn camera_wf(c: Camera) -> bool {
    &&& vec3_bounded(c.position, POS_LIM as int)
    &&& -YAW_LIM <= c.yaw <= YAW_LIM
    &&& -PI_FX <= c.pitch <= PI_FX
}

impl Camera {
    /// A camera at `position` looking along `yaw` with the given `pitch`.
    /// All three are stored exactly as given, with no normalization or
    /// clamping; integration wraps the yaw and clamps the pitch later.
    pub fn new(position: Vec3Fx, yaw: i64, pitch: i64) -> (r: Camera)
        requires
            vec3_bounded(position, POS_LIM as int),
            -YAW_LIM <= yaw <= YAW_LIM,
            -PI_FX <= pitch <= PI_FX,
        ensures
            r.position == position,
            r.yaw == yaw,
            r.pitch == pitch,
            camera_wf(r),
    {
        Camera { position, yaw, pitch }
    }
}

/// Perspective projection parameters. The aspect ratio is recomputed on
/// resize; the other fields are fixed at construction.
#[derive(Clone, Copy, Debug, PartialEq, Eq, Structural)]
pub struct Projection {
    pub aspect: i64,
    pub fovy: i64,
    pub znear: i64,
    pub zfar: i64,
}

/// The fixed-point aspect ratio of a width * height surface.
pub open spec fn spec_aspect(width: int, height: int) -> int {
    crate::fixed::spec_fx_div(width * FX_ONE, height * FX_ONE)
}

impl Projection {
    /// A projection for a surface of the given pixel size; a zero-area
    /// report is clamped to one pixel, so the ratio is always finite.
    pub fn new(width: u32, height: u32, fovy: i64, znear: i64, zfar: i64) -> (r: Projection)
        requires
            width <= 0x4000_0000,
            height <= 0x4000_0000,
        ensures
            r.aspect == spec_aspect(spec_clamp_dim(width as int), spec_clamp_dim(height as int)),
            r.fovy == fovy,
            r.znear == znear,
            r.zfar == zfar,
    {
        let w: i64 = clamp_dim(width) as i64;
        let h: i64 = clamp_dim(height) as i64;
        let aspect: i64 = crate::fixed::fx_div(w * FX_ONE, h * FX_ONE);
        Projection { aspect, fovy, znear, zfar }
    }

    /// Recompute the aspect ratio for a resized surface, clamping a
    /// zero-area report to one pixel; the field of view and depth planes
    /// are kept.
    pub fn resize(&mut self, width: u32, height: u32)
        requires
            width <= 0x4000_0000,
            height <= 0x4000_0000,
        ensures
            final(self).aspect == spec_aspect(
                spec_clamp_dim(width as int),
                spec_clamp_dim(height as int),
            ),
            final(self).fovy == old(self).fovy,
            final(self).znear == old(self).znear,
            final(self).zfar == old(self).zfar,
    {
        let w: i64 = clamp_dim(width) as i64;
        let h: i64 = clamp_dim(height) as i64;
        self.aspect = crate::fixed::fx_div(w * FX_ONE, h * FX_ONE);
    }
}

/// The six discrete movement actions the rig understands.
#[derive(Clone, Copy, Debug, PartialEq, Eq, Structural)]
pub enum CameraMovement {
    Forward,
    Backward,
    Left,
    Right,
    Jump,
    Crouch,
}

/// A scroll event, in the two unit systems platforms report.
#[derive(Clone, Copy, Debug, PartialEq, Eq, Structural)]
pub enum ScrollDelta {
    /// Whole lines, horizontal then vertical.
    Lines(i64, i64),
    /// Pixels, horizontal then vertical.
    Pixels(i64, i64),
}

/// The single signed scalar a scroll event contributes to the next
/// integration step: half a unit per line, one unit per pixel unit; the two
/// sign flips in the normalization cancel.
pub open spec fn spec_scroll_amount(delta: ScrollDelta) -> int {
    match delta {
        ScrollDelta::Lines(_x, y) => spec_fx_mul(y as int, FX_HALF as int),
        ScrollDelta::Pixels(_x, y) => y as int,
    }
}

/// The scroll event's vertical component is within the accepted magnitude.
pub open spec fn scroll_delta_ok(delta: ScrollDelta) -> bool {
    match delta {
        ScrollDelta::Lines(_x, y) => -SCROLL_LIM <= y <= SCROLL_LIM,
        ScrollDelta::Pixels(_x, y) => -SCROLL_LIM <= y <= SCROLL_LIM,
    }
}

/// Accumulates movement intents, rotation deltas and a scroll delta between
/// frames, and integrates them into a `Camera` once per frame.
#[derive(Clone, Copy, Debug, PartialEq, Eq, Structural)]
pub struct CameraController {
    pub amount_left: i64,
    pub amount_right: i64,
    pub amount_forward: i64,
    pub amount_backward: i64,
    pub amount_up: i64,
    pub amount_down: i64,
    pub rotate_horizontal: i64,
    pub rotate_vertical: i64,
    pub scroll: i64,
    pub speed: i64,
    pub sensitivity: i64,
}

/// Every accumulator is within the magnitude the integrator accepts.
pub open spec fn controller_wf(c: CameraController) -> bool {
    &&& 0 <= c.amount_left <= FX_ONE
    &&& 0 <= c.amount_right <= FX_ONE
    &&& 0 <= c.amount_forward <= FX_ONE
    &&& 0 <= c.amount_backward <= FX_ONE
    &&& 0 <= c.amount_up <= FX_ONE
    &&& 0 <= c.amount_down <= FX_ONE
    &&& -MOUSE_LIM <= c.rotate_horizontal <= MOUSE_LIM
    &&& -MOUSE_LIM <= c.rotate_vertical <= MOUSE_LIM
    &&& -SCROLL_LIM <= c.scroll <= SCROLL_LIM
    &&& -SPEED_LIM <= c.speed <= SPEED_LIM
    &&& -SENS_LIM <= c.sensitivity <= SENS_LIM
}

/// All six movement intents, both rotation deltas and the scroll delta are
/// zero; speed and sensitivity are kept.
pub open spec fn spec_consumed(c: CameraController) -> CameraController {
    CameraController {
        amount_left: 0,
        amount_right: 0,
        amount_forward: 0,
        amount_backward: 0,
        amount_up: 0,
        amount_down: 0,
        rotate_horizontal: 0,
        rotate_vertical: 0,
        scroll: 0,
        ..c
    }
}

impl CameraController {
    /// A controller at rest with the given speed and sensitivity.
    pub fn new(speed: i64, sensitivity: i64) -> (r: CameraController)
        requires
            -SPEED_LIM <= speed <= SPEED_LIM,
            -SENS_LIM <= sensitivity <= SENS_LIM,
        ensures
            r == (CameraController {
                amount_left: 0,
                amount_right: 0,
                amount_forward: 0,
                amount_backward: 0,
                amount_up: 0,
                amount_down: 0,
                rotate_horizontal: 0,
                rotate_vertical: 0,
                scroll: 0,
                speed,
                sensitivity,
            }),
            controller_wf(r),
    {
        CameraController {
            amount_left: 0,
            amount_right: 0,
            amount_forward: 0,
            amount_backward: 0,
            amount_up: 0,
            amount_down: 0,
            rotate_horizontal: 0,
            rotate_vertical: 0,
            scroll: 0,
            speed,
            sensitivity,
        }
    }

    /// Record a movement action: the corresponding intent strength is set to
    /// one full unit (idempotent while the key is held). Returns whether the
    /// input was recognized; every movement action is.
    pub fn process_keyboard(&mut self, movement: CameraMovement) -> (r: bool)
        ensures
            r == true,
            movement is Forward ==> *final(self) == (CameraController {
                amount_forward: FX_ONE,
                ..*old(self)
            }),
            movement is Backward ==> *final(self) == (CameraController {
                amount_backward: FX_ONE,
                ..*old(self)
            }),
            movement is Left ==> *final(self) == (CameraController {
                amount_left: FX_ONE,
                ..*old(self)
            }),
            movement is Right ==> *final(self) == (CameraController {
                amount_right: FX_ONE,
                ..*old(self)
            }),
            movement is Jump ==> *final(self) == (CameraController {
                amount_up: FX_ONE,
                ..*old(self)
            }),
            movement is Crouch ==> *final(self) == (CameraController {
                amount_down: FX_ONE,
                ..*old(self)
            }),
            controller_wf(*old(self)) ==> controller_wf(*final(self)),
    {
        match movement {
            CameraMovement::Forward => {
                self.amount_forward = FX_ONE;
                true
            },
            CameraMovement::Backward => {
                self.amount_backward = FX_ONE;
                true
            },
            CameraMovement::Left => {
                self.amount_left = FX_ONE;
                true
            },
            CameraMovement::Right => {
                self.amount_right = FX_ONE;
                true
            },
            CameraMovement::Jump => {
                self.amount_up = FX_ONE;
                true
            },
            CameraMovement::Crouch => {
                self.amount_down = FX_ONE;
                true
            },
        }
    }

    /// Store raw pointer deltas for the next integration step; a later event
    /// before the next frame overwrites them.
    pub fn process_mouse(&mut self, mouse_dx: i64, mouse_dy: i64)
        requires
            -MOUSE_LIM <= mouse_dx <= MOUSE_LIM,
            -MOUSE_LIM <= mouse_dy <= MOUSE_LIM,
        ensures
            *final(self) == (CameraController {
                rotate_horizontal: mouse_dx,
                rotate_vertical: mouse_dy,
                ..*old(self)
            }),
            controller_wf(*old(self)) ==> controller_wf(*final(self)),
    {
        self.rotate_horizontal = mouse_dx;
        self.rotate_vertical = mouse_dy;
    }

    /// Normalize a scroll event into a single signed scalar and store it for
    /// the next integration step.
    pub fn process_scroll(&mut self, delta: &ScrollDelta)
        requires
            scroll_delta_ok(*delta),
        ensures
            *final(self) == (CameraController {
                scroll: spec_scroll_amount(*delta) as i64,
                ..*old(self)
            }),
            -SCROLL_LIM <= final(self).scroll <= SCROLL_LIM,
            controller_wf(*old(self)) ==> controller_wf(*final(self)),
    {
        proof {
            match *delta {
                ScrollDelta::Lines(_x, y) => {
                    lemma_fx_mul_bound(y as int, FX_HALF as int, SCROLL_LIM as int, FX_HALF as int);
                    lemma_tdiv_shrinks((SCROLL_LIM as int) * (FX_HALF as int), FX_ONE as int);
                },
                ScrollDelta::Pixels(_x, _y) => {},
            }
        }
        let v: i64 = match delta {
            ScrollDelta::Lines(_x, y) => -fx_mul(*y, FX_HALF),
            ScrollDelta::Pixels(_x, y) => -*y,
        };
        self.scroll = -v;
    }

    /// Integrate the accumulated intents into the camera pose over `dt`
    /// fixed-point seconds, then reset every accumulated delta to zero.
    ///
    /// Movement driven by the keyboard intents stays on the horizontal
    /// plane (the basis comes from the yaw alone); the scroll delta dollies
    /// along the full pitch-and-yaw-aware forward direction; pitch is
    /// clamped just short of a quarter turn; yaw is wrapped into one turn.
    pub fn update_camera(&mut self, camera: &mut Camera, dt: i64)
        requires
            controller_wf(*old(self)),
            camera_wf(*old(camera)),
            0 <= dt <= DT_LIM,
        ensures
            *final(camera) == spec_update_camera(*old(self), *old(camera), dt as int),
            *final(self) == spec_consumed(*old(self)),
            controller_wf(*final(self)),
            -PI_FX <= final(camera).yaw < PI_FX,
            -SAFE_PITCH_FX <= final(camera).pitch <= SAFE_PITCH_FX,
            final(self).amount_forward == 0 && final(self).amount_backward == 0,
            final(self).amount_left == 0 && final(self).amount_right == 0,
            final(self).amount_up == 0 && final(self).amount_down == 0,
            final(self).rotate_horizontal == 0 && final(self).rotate_vertical == 0,
            final(self).scroll == 0,
    {
        let yaw_sin: i64 = sin_fx(camera.yaw);
        let yaw_cos: i64 = cos_fx(camera.yaw);
        let fwd_raw: Vec3Fx = Vec3Fx { x: yaw_cos, y: 0, z: yaw_sin };
        let rgt_raw: Vec3Fx = Vec3Fx { x: -yaw_sin, y: 0, z: yaw_cos };
        proof {
            lemma_normalize_bounded(fwd_raw, FX_ONE as int);
            lemma_normalize_bounded(rgt_raw, FX_ONE as int);
        }
        let forward: Vec3Fx = fwd_raw.normalize();
        let right: Vec3Fx = rgt_raw.normalize();
        let diff_f: i64 = self.amount_forward - self.amount_backward;
        proof {
            lemma_mul_bound(diff_f as int, self.speed as int, FX_ONE as int, SPEED_LIM as int);
            lemma_fx_mul_bound(diff_f as int, self.speed as int, FX_ONE as int, SPEED_LIM as int);
        }
        let kf1: i64 = fx_mul(diff_f, self.speed);
        proof {
            lemma_mul_bound(kf1 as int, dt as int, 0x100_0000, DT_LIM as int);
            lemma_fx_mul_bound(kf1 as int, dt as int, 0x100_0000, DT_LIM as int);
        }
        let kf: i64 = fx_mul(kf1, dt);
        proof {
            lemma_scaled_move_bounds(forward, kf as int);
        }
        camera.position = camera.position.plus(forward.scaled(kf));
        let diff_r: i64 = self.amount_right - self.amount_left;
        proof {
            lemma_mul_bound(diff_r as int, self.speed as int, FX_ONE as int, SPEED_LIM as int);
            lemma_fx_mul_bound(diff_r as int, self.speed as int, FX_ONE as int, SPEED_LIM as int);
        }
        let kr1: i64 = fx_mul(diff_r, self.speed);
        proof {
            lemma_mul_bound(kr1 as int, dt as int, 0x100_0000, DT_LIM as int);
            lemma_fx_mul_bound(kr1 as int, dt as int, 0x100_0000, DT_LIM as int);
        }
        let kr: i64 = fx_mul(kr1, dt);
        proof {
            lemma_scaled_move_bounds(right, kr as int);
        }
        camera.position = camera.position.plus(right.scaled(kr));
        let pitch_sin: i64 = sin_fx(camera.pitch);
        let pitch_cos: i64 = cos_fx(camera.pitch);
        proof {
            lemma_mul_bound(pitch_cos as int, yaw_cos as int, FX_ONE as int, FX_ONE as int);
            lemma_mul_bound(pitch_cos as int, yaw_sin as int, FX_ONE as int, FX_ONE as int);
            lemma_fx_mul_bound(pitch_cos as int, yaw_cos as int, FX_ONE as int, FX_ONE as int);
            lemma_fx_mul_bound(pitch_cos as int, yaw_sin as int, FX_ONE as int, FX_ONE as int);
        }
        let sw_raw: Vec3Fx = Vec3Fx {
            x: fx_mul(pitch_cos, yaw_cos),
            y: pitch_sin,
            z: fx_mul(pitch_cos, yaw_sin),
        };
        proof {
            lemma_normalize_bounded(sw_raw, FX_ONE as int);
        }
        let scrollward: Vec3Fx = sw_raw.normalize();
        proof {
            lemma_mul_bound(self.scroll as int, self.speed as int, SCROLL_LIM as int, SPEED_LIM as int);
            lemma_fx_mul_bound(self.scroll as int, self.speed as int, SCROLL_LIM as int, SPEED_LIM as int);
        }
        let ks1: i64 = fx_mul(self.scroll, self.speed);
        proof {
            lemma_mul_bound(ks1 as int, self.sensitivity as int, 0x1_0000_0000, SENS_LIM as int);
            lemma_fx_mul_bound(ks1 as int, self.sensitivity as int, 0x1_0000_0000, SENS_LIM as int);
        }
        let ks2: i64 = fx_mul(ks1, self.sensitivity);
        proof {
            lemma_mul_bound(ks2 as int, dt as int, 0x100_0000_0000, DT_LIM as int);
            lemma_fx_mul_bound(ks2 as int, dt as int, 0x100_0000_0000, DT_LIM as int);
        }
        let ks: i64 = fx_mul(ks2, dt);
        proof {
            lemma_mul_bound(scrollward.x as int, ks as int, 0x1_0000_0000, 0x1000_0000_0000);
            lemma_mul_bound(scrollward.y as int, ks as int, 0x1_0000_0000, 0x1000_0000_0000);
            lemma_mul_bound(scrollward.z as int, ks as int, 0x1_0000_0000, 0x1000_0000_0000);
            lemma_fx_mul_bound(scrollward.x as int, ks as int, 0x1_0000_0000, 0x1000_0000_0000);
            lemma_fx_mul_bound(scrollward.y as int, ks as int, 0x1_0000_0000, 0x1000_0000_0000);
            lemma_fx_mul_bound(scrollward.z as int, ks as int, 0x1_0000_0000, 0x1000_0000_0000);
        }
        camera.position = camera.position.plus(scrollward.scaled(ks));
        self.scroll = 0;
        let diff_u: i64 = self.amount_up - self.amount_down;
        proof {
            lemma_mul_bound(diff_u as int, self.speed as int, FX_ONE as int, SPEED_LIM as int);
            lemma_fx_mul_bound(diff_u as int, self.speed as int, FX_ONE as int, SPEED_LIM as int);
        }
        let ku1: i64 = fx_mul(diff_u, self.speed);
        proof {
            lemma_mul_bound(ku1 as int, dt as int, 0x100_0000, DT_LIM as int);
            lemma_fx_mul_bound(ku1 as int, dt as int, 0x100_0000, DT_LIM as int);
        }
        let ku: i64 = fx_mul(ku1, dt);
        camera.position = Vec3Fx { x: camera.position.x, y: camera.position.y + ku, z: camera.position.z };
        proof {
            lemma_mul_bound(
                self.rotate_horizontal as int,
                self.sensitivity as int,
                MOUSE_LIM as int,
                SENS_LIM as int,
            );
            lemma_fx_mul_bound(
                self.rotate_horizontal as int,
                self.sensitivity as int,
                MOUSE_LIM as int,
                SENS_LIM as int,
            );
            lemma_mul_bound(
                self.rotate_vertical as int,
                self.sensitivity as int,
                MOUSE_LIM as int,
                SENS_LIM as int,
            );
            lemma_fx_mul_bound(
                self.rotate_vertical as int,
                self.sensitivity as int,
                MOUSE_LIM as int,
                SENS_LIM as int,
            );
        }
        let dh1: i64 = fx_mul(self.rotate_horizontal, self.sensitivity);
        let dv1: i64 = fx_mul(self.rotate_vertical, self.sensitivity);
        proof {
            lemma_mul_bound(dh1 as int, dt as int, 0x4_0000_0000, DT_LIM as int);
            lemma_fx_mul_bound(dh1 as int, dt as int, 0x4_0000_0000, DT_LIM as int);
            lemma_mul_bound(dv1 as int, dt as int, 0x4_0000_0000, DT_LIM as int);
            lemma_fx_mul_bound(dv1 as int, dt as int, 0x4_0000_0000, DT_LIM as int);
        }
        let dh: i64 = fx_mul(dh1, dt);
        let dv: i64 = fx_mul(dv1, dt);
        camera.yaw = wrap_angle(camera.yaw + dh);
        camera.pitch = camera.pitch - dv;
        self.rotate_horizontal = 0;
        self.rotate_vertical = 0;
        camera.pitch = fx_clamp(camera.pitch, -SAFE_PITCH_FX, SAFE_PITCH_FX);
        self.amount_left = 0;
        self.amount_right = 0;
        self.amount_forward = 0;
        self.amount_backward = 0;
        self.amount_up = 0;
        self.amount_down = 0;
    }
}

/// Intent strengths scaled by speed then by elapsed time.
pub open spec fn spec_move_scale(diff: int, speed: int, dt: int) -> int {
    spec_fx_mul(spec_fx_mul(diff, speed), dt)
}

/// The horizontal-plane forward direction of a yaw angle.
pub open spec fn spec_forward_of_yaw(yaw: int) -> Vec3Fx {
    (Vec3Fx {
        x: spec_cos_fx(yaw) as i64,
        y: 0,
        z: spec_sin_fx(yaw) as i64,
    }).spec_normalize()
}

/// The horizontal-plane rightward direction of a yaw angle.
pub open spec fn spec_right_of_yaw(yaw: int) -> Vec3Fx {
    (Vec3Fx {
        x: (-spec_sin_fx(yaw)) as i64,
        y: 0,
        z: spec_cos_fx(yaw) as i64,
    }).spec_normalize()
}

/// The full pitch-and-yaw-aware forward direction the scroll dolly moves
/// along.
pub open spec fn spec_scrollward(yaw: int, pitch: int) -> Vec3Fx {
    (Vec3Fx {
        x: spec_fx_mul(spec_cos_fx(pitch), spec_cos_fx(yaw)) as i64,
        y: spec_sin_fx(pitch) as i64,
        z: spec_fx_mul(spec_cos_fx(pitch), spec_sin_fx(yaw)) as i64,
    }).spec_normalize()
}

/// The position after one integration step: the three directional
/// contributions in order, then the vertical intent.
pub open spec fn spec_update_position(c: CameraController, cam: Camera, dt: int) -> Vec3Fx {
    let p1 = spec_v3_plus(
        cam.position,
        spec_forward_of_yaw(cam.yaw as int).spec_scaled(
            spec_move_scale(c.amount_forward - c.amount_backward, c.speed as int, dt),
        ),
    );
    let p2 = spec_v3_plus(
        p1,
        spec_right_of_yaw(cam.yaw as int).spec_scaled(
            spec_move_scale(c.amount_right - c.amount_left, c.speed as int, dt),
        ),
    );
    let p3 = spec_v3_plus(
        p2,
        spec_scrollward(cam.yaw as int, cam.pitch as int).spec_scaled(
            spec_fx_mul(
                spec_fx_mul(spec_fx_mul(c.scroll as int, c.speed as int), c.sensitivity as int),
                dt,
            ),
        ),
    );
    Vec3Fx {
        x: p3.x,
        y: (p3.y + spec_move_scale(c.amount_up - c.amount_down, c.speed as int, dt)) as i64,
        z: p3.z,
    }
}

/// The camera pose after one integration step.
pub open spec fn spec_update_camera(c: CameraController, cam: Camera, dt: int) -> Camera {
    Camera {
        position: spec_update_position(c, cam, dt),
        yaw: spec_wrap_angle(
            cam.yaw + spec_fx_mul(
                spec_fx_mul(c.rotate_horizontal as int, c.sensitivity as int),
                dt,
            ),
        ) as i64,
        pitch: spec_clamp(
            cam.pitch - spec_fx_mul(
                spec_fx_mul(c.rotate_vertical as int, c.sensitivity as int),
                dt,
            ),
            -SAFE_PITCH_FX as int,
            SAFE_PITCH_FX as int,
        ) as i64,
    }
}

/// A movement contribution's components stay small enough to add to a
/// bounded position.
proof fn lemma_scaled_move_bounds(dir: Vec3Fx, k: int)
    requires
        vec3_bounded(dir, 0x1_0000_0000),
        -0x1000_0000 <= k <= 0x1000_0000,
    ensures
        -(i64::MAX * (FX_ONE as int)) <= dir.x * k <= i64::MAX * (FX_ONE as int),
        -(i64::MAX * (FX_ONE as int)) <= dir.y * k <= i64::MAX * (FX_ONE as int),
        -(i64::MAX * (FX_ONE as int)) <= dir.z * k <= i64::MAX * (FX_ONE as int),
        -0x1000_0000_0000_0000 <= spec_fx_mul(dir.x as int, k) <= 0x1000_0000_0000_0000,
        -0x1000_0000_0000_0000 <= spec_fx_mul(dir.y as int, k) <= 0x1000_0000_0000_0000,
        -0x1000_0000_0000_0000 <= spec_fx_mul(dir.z as int, k) <= 0x1000_0000_0000_0000,
{
    lemma_mul_bound(dir.x as int, k, 0x1_0000_0000, 0x1000_0000);
    lemma_mul_bound(dir.y as int, k, 0x1_0000_0000, 0x1000_0000);
    lemma_mul_bound(dir.z as int, k, 0x1_0000_0000, 0x1000_0000);
    lemma_fx_mul_bound(dir.x as int, k, 0x1_0000_0000, 0x1000_0000);
    lemma_fx_mul_bound(dir.y as int, k, 0x1_0000_0000, 0x1000_0000);
    lemma_fx_mul_bound(dir.z as int, k, 0x1_0000_0000, 0x1000_0000);
    lemma_tdiv_shrinks(0x1_0000_0000int * 0x1000_0000int, FX_ONE as int);
}

/// With no elapsed time, one integration step leaves the camera exactly
/// where it was: position, yaw and pitch are unchanged, whatever intents
/// had accumulated. Two starting states are excepted, because the step
/// normalizes them even then: a pitch outside the clamped safe range is
/// clamped, and a yaw outside [-pi, pi) is wrapped.
pub proof fn lemma_update_camera_dt_zero(c: CameraController, cam: Camera)
    requires
        controller_wf(c),
        camera_wf(cam),
        -PI_FX <= cam.yaw < PI_FX,
        -SAFE_PITCH_FX <= cam.pitch <= SAFE_PITCH_FX,
    ensures
        spec_update_camera(c, cam, 0) == cam,
{
    let yaw = cam.yaw as int;
    let pitch = cam.pitch as int;
    lemma_fx_mul_zero(spec_fx_mul(c.amount_forward - c.amount_backward, c.speed as int));
    lemma_fx_mul_zero(spec_fx_mul(c.amount_right - c.amount_left, c.speed as int));
    lemma_fx_mul_zero(spec_fx_mul(c.amount_up - c.amount_down, c.speed as int));
    lemma_fx_mul_zero(spec_fx_mul(spec_fx_mul(c.scroll as int, c.speed as int), c.sensitivity as int));
    lemma_fx_mul_zero(spec_fx_mul(c.rotate_horizontal as int, c.sensitivity as int));
    lemma_fx_mul_zero(spec_fx_mul(c.rotate_vertical as int, c.sensitivity as int));
    lemma_v3_scaled_zero(spec_forward_of_yaw(yaw));
    lemma_v3_scaled_zero(spec_right_of_yaw(yaw));
    lemma_v3_scaled_zero(spec_scrollward(yaw, pitch));
    lemma_small_mod((cam.yaw + PI_FX) as nat, crate::trig::TWO_PI_FX as nat);
    assert(spec_wrap_angle(yaw + 0) == yaw);
    assert(spec_update_position(c, cam, 0) == cam.position);
}

/// The full pitch-and-yaw-aware view direction, before normalization.
pub open spec fn spec_camera_dir(yaw: int, pitch: int) -> Vec3Fx {
    Vec3Fx {
        x: spec_fx_mul(spec_cos_fx(pitch), spec_cos_fx(yaw)) as i64,
        y: spec_sin_fx(pitch) as i64,
        z: spec_fx_mul(spec_cos_fx(pitch), spec_sin_fx(yaw)) as i64,
    }
}

/// The world up axis.
pub open spec fn spec_up_axis() -> Vec3Fx {
    Vec3Fx { x: 0, y: FX_ONE, z: 0 }
}

impl Camera {
    /// The view matrix of the pose: a right-handed look-to from the
    /// position along the pitch-and-yaw direction, with the world up axis.
    pub open spec fn spec_calc_matrix(self) -> crate::mat::Mat4Fx {
        crate::mat::spec_look_to(
            self.position,
            spec_camera_dir(self.yaw as int, self.pitch as int),
            spec_up_axis(),
        )
    }

    pub fn calc_matrix(&self) -> (r: crate::mat::Mat4Fx)
        requires
            vec3_bounded(self.position, 0x2_0000_0000),
            -PI_FX <= self.yaw <= PI_FX,
            -PI_FX <= self.pitch <= PI_FX,
        ensures
            r == self.spec_calc_matrix(),
            crate::mat::m4_bounded(r, crate::mat::M4_LIM as int),
    {
        let ps: i64 = sin_fx(self.pitch);
        let pc: i64 = cos_fx(self.pitch);
        let ys: i64 = sin_fx(self.yaw);
        let yc: i64 = cos_fx(self.yaw);
        proof {
            lemma_mul_bound(pc as int, yc as int, FX_ONE as int, FX_ONE as int);
            lemma_mul_bound(pc as int, ys as int, FX_ONE as int, FX_ONE as int);
            lemma_fx_mul_bound(pc as int, yc as int, FX_ONE as int, FX_ONE as int);
            lemma_fx_mul_bound(pc as int, ys as int, FX_ONE as int, FX_ONE as int);
            lemma_tdiv_shrinks((FX_ONE as int) * (FX_ONE as int), FX_ONE as int);
        }
        let dir: Vec3Fx = Vec3Fx { x: fx_mul(pc, yc), y: ps, z: fx_mul(pc, ys) };
        crate::mat::look_to_rh(self.position, dir, Vec3Fx { x: 0, y: FX_ONE, z: 0 })
    }
}

/// The projection parameters are within the ranges the matrix functions
/// accept.
pub open spec fn projection_wf(p: Projection) -> bool {
    crate::mat::persp_wf(p.fovy as int, p.aspect as int, p.znear as int, p.zfar as int)
}

impl Projection {
    /// The perspective matrix of the current parameters.
    pub open spec fn spec_calc_matrix(self) -> crate::mat::Mat4Fx {
        crate::mat::spec_perspective(
            self.fovy as int,
            self.aspect as int,
            self.znear as int,
            self.zfar as int,
        )
    }

    pub fn calc_matrix(&self) -> (r: crate::mat::Mat4Fx)
        requires
            projection_wf(*self),
        ensures
            r == self.spec_calc_matrix(),
            crate::mat::m4_bounded(r, crate::mat::M4_LIM as int),
    {
        crate::mat::perspective(self.fovy, self.aspect, self.znear, self.zfar)
    }
}

/// The fixed-layout GPU-visible record mirroring camera and projection
/// state: view-space position, view matrix, view-projection matrix, inverse
/// projection and inverse view, in that order. Derived state: recomputed
/// every frame, never hand-edited.
#[derive(Clone, Copy, Debug, PartialEq, Eq, Structural)]
pub struct CameraUniform {
    pub view_position: crate::mat::Vec4Fx,
    pub view: crate::mat::Mat4Fx,
    pub view_proj: crate::mat::Mat4Fx,
    pub inv_proj: crate::mat::Mat4Fx,
    pub inv_view: crate::mat::Mat4Fx,
}

impl CameraUniform {
    /// A fresh uniform: zero position, identity matrices.
    pub fn new() -> (r: CameraUniform)
        ensures
            r.view_position == (crate::mat::Vec4Fx { x: 0i64, y: 0i64, z: 0i64, w: 0i64 }),
            r.view == crate::mat::spec_m4_identity(),
            r.view_proj == crate::mat::spec_m4_identity(),
            r.inv_proj == crate::mat::spec_m4_identity(),
            r.inv_view == crate::mat::spec_m4_identity(),
    {
        CameraUniform {
            view_position: crate::mat::Vec4Fx { x: 0, y: 0, z: 0, w: 0 },
            view: crate::mat::Mat4Fx::identity(),
            view_proj: crate::mat::Mat4Fx::identity(),
            inv_proj: crate::mat::Mat4Fx::identity(),
            inv_view: crate::mat::Mat4Fx::identity(),
        }
    }

    /// Recompute the whole record from the camera pose and projection: the
    /// homogeneous position, the view matrix, the projection times the view,
    /// the closed-form projection inverse, and the view's rigid inverse
    /// (the rotation transposed with the translation taken back through it).
    pub fn update_view_proj(&mut self, camera: &Camera, projection: &Projection)
        requires
            vec3_bounded(camera.position, 0x2_0000_0000),
            -PI_FX <= camera.yaw <= PI_FX,
            -PI_FX <= camera.pitch <= PI_FX,
            projection_wf(*projection),
        ensures
            final(self).view_position == (crate::mat::Vec4Fx {
                x: camera.position.x,
                y: camera.position.y,
                z: camera.position.z,
                w: FX_ONE,
            }),
            final(self).view == camera.spec_calc_matrix(),
            final(self).view_proj == crate::mat::spec_mul4(
                projection.spec_calc_matrix(),
                camera.spec_calc_matrix(),
            ),
            final(self).inv_proj == crate::mat::spec_perspective_inv(
                projection.fovy as int,
                projection.aspect as int,
                projection.znear as int,
                projection.zfar as int,
            ),
            final(self).inv_view == crate::mat::spec_rigid_inverse(camera.spec_calc_matrix()),
    {
        self.view_position = crate::mat::Vec4Fx {
            x: camera.position.x,
            y: camera.position.y,
            z: camera.position.z,
            w: FX_ONE,
        };
        let proj: crate::mat::Mat4Fx = projection.calc_matrix();
        let view: crate::mat::Mat4Fx = camera.calc_matrix();
        self.view = view;
        self.view_proj = crate::mat::mul4(&proj, &view);
        self.inv_proj = crate::mat::perspective_inverse(
            projection.fovy,
            projection.aspect,
            projection.znear,
            projection.zfar,
        );
        self.inv_view = crate::mat::rigid_inverse(&view);
    }

    /// The values of the record in its byte-for-byte GPU order: the
    /// homogeneous view position, then the four matrices column-major.
    pub open spec fn spec_values(self) -> Seq<i64> {
        seq![
            self.view_position.x,
            self.view_position.y,
            self.view_position.z,
            self.view_position.w,
        ] + crate::mat::spec_m4_values(self.view) + crate::mat::spec_m4_values(self.view_proj)
            + crate::mat::spec_m4_values(self.inv_proj) + crate::mat::spec_m4_values(self.inv_view)
    }

    /// Flatten the record into the GPU order.
    pub fn to_values(&self) -> (r: Vec<i64>)
        ensures
            r@ == self.spec_values(),
            r@.len() == 68,
    {
        let mut out: Vec<i64> = Vec::new();
        out.push(self.view_position.x);
        out.push(self.view_position.y);
        out.push(self.view_position.z);
        out.push(self.view_position.w);
        proof {
            assert(out@ =~= seq![
                self.view_position.x,
                self.view_position.y,
                self.view_position.z,
                self.view_position.w,
            ]);
        }
        crate::mat::push_m4_values(&mut out, &self.view);
        crate::mat::push_m4_values(&mut out, &self.view_proj);
        crate::mat::push_m4_values(&mut out, &self.inv_proj);
        crate::mat::push_m4_values(&mut out, &self.inv_view);
        proof {
            assert(out@ =~= self.spec_values());
        }
        out
    }
}

/// A controller whose intents were consumed moves the camera no further:
/// however much time passes, an integration step from the reset state
/// leaves the position exactly where it was (and a pitch inside the safe
/// range stays put, so the whole pose is unchanged there).
pub proof fn lemma_update_camera_at_rest(c: CameraController, cam: Camera, dt: int)
    requires
        camera_wf(cam),
        -PI_FX <= cam.yaw < PI_FX,
        0 <= dt <= DT_LIM,
    ensures
        spec_update_camera(spec_consumed(c), cam, dt).position == cam.position,
        spec_update_camera(spec_consumed(c), cam, dt).yaw == cam.yaw,
        -SAFE_PITCH_FX <= cam.pitch <= SAFE_PITCH_FX ==> spec_update_camera(
            spec_consumed(c),
            cam,
            dt,
        ) == cam,
{
    let r = spec_consumed(c);
    let yaw = cam.yaw as int;
    let pitch = cam.pitch as int;
    lemma_fx_mul_zero(r.speed as int);
    lemma_fx_mul_zero(spec_fx_mul(0, r.speed as int));
    lemma_fx_mul_zero(dt);
    lemma_fx_mul_zero(r.sensitivity as int);
    lemma_fx_mul_zero(spec_fx_mul(0, r.sensitivity as int));
    lemma_v3_scaled_zero(spec_forward_of_yaw(yaw));
    lemma_v3_scaled_zero(spec_right_of_yaw(yaw));
    lemma_v3_scaled_zero(spec_scrollward(yaw, pitch));
    lemma_small_mod((cam.yaw + PI_FX) as nat, crate::trig::TWO_PI_FX as nat);
    assert(spec_wrap_angle(yaw + 0) == yaw);
    assert(spec_update_position(r, cam, dt) == cam.position);
}

/// Scaling any vector by zero gives the zero vector, and adding that to a
/// position leaves it unchanged.
proof fn lemma_v3_scaled_zero(v: Vec3Fx)
    ensures
        v.spec_scaled(0) == (Vec3Fx { x: 0i64, y: 0i64, z: 0i64 }),
        (forall|p: Vec3Fx| #[trigger] spec_v3_plus(p, v.spec_scaled(0)) == p),
{
    lemma_fx_mul_zero(v.x as int);
    lemma_fx_mul_zero(v.y as int);
    lemma_fx_mul_zero(v.z as int);
}

} // verus!
