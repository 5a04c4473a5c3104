//! The engine loop's decision core: how window and device events are routed
//! into the camera rig and the renderer. The loop itself — polling the
//! window, timing frames, driving the GPU — belongs to the host program;
//! each event it receives is handed here as a plain value, and the state
//! change it causes is decided and applied here.

use vstd::prelude::*;

verus! {

use crate::camera::{
    CameraMovement,
    ScrollDelta,
    controller_wf,
    scroll_delta_ok,
    spec_scroll_amount,
    spec_aspect,
    CameraController,
    MOUSE_LIM,
};
use crate::renderer::{Renderer, renderer_wf};
use crate::fixed::spec_clamp_dim;

/// A key press, reduced to what the movement bindings distinguish.
#[derive(Clone, Copy, Debug, PartialEq, Eq, Structural)]
pub enum KeyInput {
    /// A character key, lower case.
    Letter(char),
    Space,
    Shift,
}

/// The movement action bound to a key: the classic w/a/s/d plane movement,
/// space to jump, shift to crouch; anything else is unbound.
pub open spec fn spec_map_key(key: KeyInput) -> Option<CameraMovement> {
    match key {
        KeyInput::Letter(c) => {
            if c == 'w' {
                Some(CameraMovement::Forward)
            } else if c == 'a' {
                Some(CameraMovement::Left)
            } else if c == 's' {
                Some(CameraMovement::Backward)
            } else if c == 'd' {
                Some(CameraMovement::Right)
            } else {
                None
            }
        },
        KeyInput::Space => Some(CameraMovement::Jump),
        KeyInput::Shift => Some(CameraMovement::Crouch),
    }
}

/// Map a key press to its movement action.
pub fn map_key(key: &KeyInput) -> (r: Option<CameraMovement>)
    ensures
        r == spec_map_key(*key),
{
    match key {
        KeyInput::Letter(c) => {
            if *c == 'w' {
                Option::Some(CameraMovement::Forward)
            } else if *c == 'a' {
                Option::Some(CameraMovement::Left)
            } else if *c == 's' {
                Option::Some(CameraMovement::Backward)
            } else if *c == 'd' {
                Option::Some(CameraMovement::Right)
            } else {
                Option::None
            }
        },
        KeyInput::Space => Option::Some(CameraMovement::Jump),
        KeyInput::Shift => Option::Some(CameraMovement::Crouch),
    }
}

/// One event the windowing layer delivers, as plain values.
#[derive(Clone, Copy, Debug, PartialEq, Eq, Structural)]
pub enum EngineEvent {
    /// Raw pointer motion, in fixed-point units.
    MouseMotion { dx: i64, dy: i64 },
    /// A key went down.
    KeyPressed(KeyInput),
    /// The scroll wheel moved.
    MouseWheel(ScrollDelta),
    /// The window was resized to the reported pixel size.
    Resized { width: u32, height: u32 },
    /// The window asked to close.
    CloseRequested,
    /// Anything the engine does not react to.
    Other,
}

/// The event's payload is within the ranges the rig accepts.
pub open spec fn engine_event_ok(e: EngineEvent) -> bool {
    match e {
        EngineEvent::MouseMotion { dx, dy } => -MOUSE_LIM <= dx <= MOUSE_LIM && -MOUSE_LIM <= dy
            <= MOUSE_LIM,
        EngineEvent::MouseWheel(delta) => scroll_delta_ok(delta),
        EngineEvent::Resized { width, height } => width <= 0x4000_0000 && height <= 0x4000_0000,
        _ => true,
    }
}

/// The controller after a key press: the bound intent raised to full
/// strength, or everything unchanged for an unbound key.
pub open spec fn spec_controller_after_key(c: CameraController, key: KeyInput) -> CameraController {
    match spec_map_key(key) {
        Some(CameraMovement::Forward) => CameraController { amount_forward: crate::fixed::FX_ONE, ..c },
        Some(CameraMovement::Backward) => CameraController {
            amount_backward: crate::fixed::FX_ONE,
            ..c
        },
        Some(CameraMovement::Left) => CameraController { amount_left: crate::fixed::FX_ONE, ..c },
        Some(CameraMovement::Right) => CameraController { amount_right: crate::fixed::FX_ONE, ..c },
        Some(CameraMovement::Jump) => CameraController { amount_up: crate::fixed::FX_ONE, ..c },
        Some(CameraMovement::Crouch) => CameraController { amount_down: crate::fixed::FX_ONE, ..c },
        None => c,
    }
}

/// Route one event into the renderer's state, exactly as the engine loop
/// reacts to it: pointer motion and wheel events feed the camera
/// controller, key presses raise movement intents, a resize reconfigures
/// the renderer, and a close request asks the loop to exit. Returns whether
/// the loop must exit.
pub fn handle_event(r: &mut Renderer, event: &EngineEvent) -> (exit: bool)
    requires
        renderer_wf(*old(r)),
        engine_event_ok(*event),
        old(r).hdr.texture_generation < u64::MAX,
    ensures
        renderer_wf(*final(r)),
        exit == (*event is CloseRequested),
        controller_wf(old(r).camera_controller) ==> controller_wf(final(r).camera_controller),
        (match *event {
            EngineEvent::MouseMotion { dx, dy } => *final(r) == (Renderer {
                camera_controller: CameraController {
                    rotate_horizontal: dx,
                    rotate_vertical: dy,
                    ..old(r).camera_controller
                },
                ..*old(r)
            }),
            EngineEvent::KeyPressed(key) => *final(r) == (Renderer {
                camera_controller: spec_controller_after_key(old(r).camera_controller, key),
                ..*old(r)
            }),
            EngineEvent::MouseWheel(delta) => *final(r) == (Renderer {
                camera_controller: CameraController {
                    scroll: spec_scroll_amount(delta) as i64,
                    ..old(r).camera_controller
                },
                ..*old(r)
            }),
            EngineEvent::Resized { width, height } => {
                &&& final(r).config.width == spec_clamp_dim(width as int)
                &&& final(r).config.height == spec_clamp_dim(height as int)
                &&& final(r).projection.aspect == spec_aspect(
                    spec_clamp_dim(width as int),
                    spec_clamp_dim(height as int),
                )
                &&& final(r).projection.fovy == old(r).projection.fovy
                &&& final(r).projection.znear == old(r).projection.znear
                &&& final(r).projection.zfar == old(r).projection.zfar
                &&& final(r).hdr.texture_generation == old(r).hdr.texture_generation + 1
                &&& final(r).camera == old(r).camera
                &&& final(r).camera_controller == old(r).camera_controller
                &&& final(r).camera_uniform == old(r).camera_uniform
            },
            EngineEvent::CloseRequested => *final(r) == *old(r),
            EngineEvent::Other => *final(r) == *old(r),
        }),
{
    match event {
        EngineEvent::MouseMotion { dx, dy } => {
            r.camera_controller.process_mouse(*dx, *dy);
            false
        },
        EngineEvent::KeyPressed(key) => {
            match map_key(key) {
                Option::Some(movement) => {
                    let recognized: bool = r.camera_controller.process_keyboard(movement);
                    proof {
                        assert(recognized);
                    }
                },
                Option::None => {},
            }
            false
        },
        EngineEvent::MouseWheel(delta) => {
            r.camera_controller.process_scroll(delta);
            false
        },
        EngineEvent::Resized { width, height } => {
            r.resize(*width, *height);
            false
        },
        EngineEvent::CloseRequested => true,
        EngineEvent::Other => false,
    }
}

} // verus!
